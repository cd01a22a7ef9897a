use vstd::prelude::*;

use crate::board::{
    cell_index, check_draw, check_win, has_winning_line, is_full, other_player, Board, EMPTY,
};
use crate::input::{input_command, parse_move_input, MoveInput};

verus! {

/// What became of one line typed at the move prompt.
#[derive(Clone, Copy, Debug, PartialEq, Eq, Structural)]
pub enum MoveStep {
    /// The player asked to leave; the board is untouched.
    Quit,
    /// The line was not a position from 1 to 9; the board is untouched.
    Invalid,
    /// The position already holds a mark; the board is untouched.
    Occupied,
    /// The player's mark now stands at this position.
    Placed(u8),
}

/// How a turn ends once the mover's mark is on the board.
#[derive(Clone, Copy, Debug, PartialEq, Eq, Structural)]
pub enum TurnOutcome {
    /// The board is full and the mover holds a line: reported as a draw.
    Draw,
    /// The mover, named here, holds a winning line on a board that is not full.
    Victory(u8),
    /// No winning line for the mover: the other player is now to move.
    Continue,
}

/// Applies one line typed at the move prompt to `board`: a free position gets
/// the mark of the player to move; "q"/"quit", an invalid line or an occupied
/// position leave the board as it was.
pub fn take_move_input(board: &mut Board, line: &str) -> (r: MoveStep)
    ensures
        old(board).valid(),
        final(board).valid(),
        match input_command(line@) {
            MoveInput::Quit => r == MoveStep::Quit && *final(board) == *old(board),
            MoveInput::Invalid => r == MoveStep::Invalid && *final(board) == *old(board),
            MoveInput::Position(p) => if old(board).cells()[cell_index(p)] == EMPTY {
                &&& r == MoveStep::Placed(p)
                &&& final(board).cells() == old(board).cells().update(
                    cell_index(p),
                    old(board).player(),
                )
                &&& final(board).player() == old(board).player()
            } else {
                r == MoveStep::Occupied && *final(board) == *old(board)
            },
        },
{
    proof {
        use_type_invariant(&*board);
        board.lemma_well_formed_is_valid();
    }
    match parse_move_input(line) {
        MoveInput::Quit => MoveStep::Quit,
        MoveInput::Invalid => MoveStep::Invalid,
        MoveInput::Position(p) => {
            if board.check_element_is_empty(p) {
                board.change_element(p);
                MoveStep::Placed(p)
            } else {
                MoveStep::Occupied
            }
        },
    }
}

/// Ends the turn of the player who just moved: a full board on which the
/// mover holds a line is a draw, otherwise a line for the mover is a victory;
/// with no such line the other player is to move next.
pub fn finish_turn(board: &mut Board) -> (r: TurnOutcome)
    ensures
        old(board).valid(),
        final(board).valid(),
        ({
            let before = *old(board);
            let after = *final(board);
            let full = is_full(before.cells());
            let won = has_winning_line(before.cells(), before.player());
            &&& full && won ==> r == TurnOutcome::Draw && after == before
            &&& !full && won ==> r == TurnOutcome::Victory(before.player()) && after == before
            &&& !won ==> {
                &&& r == TurnOutcome::Continue
                &&& after.cells() == before.cells()
                &&& after.player() == other_player(before.player())
            }
        }),
{
    let won = check_win(board);
    if check_draw(board) && won {
        TurnOutcome::Draw
    } else if won {
        TurnOutcome::Victory(board.get_current_player())
    } else {
        board.change_player();
        TurnOutcome::Continue
    }
}

} // verus!
