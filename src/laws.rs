use vstd::prelude::*;

use crate::board::{
    cell_index, has_winning_line, holds_line, other_player, Board, CELL_COUNT, EMPTY, PLAYER_A,
    PLAYER_B,
};

verus! {

/// On a board where a game starts, every position from 1 to 9 is empty.
pub proof fn lemma_fresh_board_is_empty(board: Board, position: u8)
    requires
        board.is_fresh(),
        1 <= position <= 9,
    ensures
        board.cells()[cell_index(position)] == EMPTY,
{
}

/// Handing the move over twice gives it back to the player who had it.
pub proof fn lemma_change_player_twice(player: u8)
    requires
        player == PLAYER_A || player == PLAYER_B,
    ensures
        other_player(other_player(player)) == player,
{
}

/// When the first player's mark fills the top row, the first player has a
/// winning line.
pub proof fn lemma_top_row_wins(cells: Seq<u8>)
    requires
        cells.len() == CELL_COUNT,
        cells[0] == PLAYER_A && cells[1] == PLAYER_A && cells[2] == PLAYER_A,
    ensures
        has_winning_line(cells, PLAYER_A),
{
    assert(holds_line(cells, PLAYER_A, 0));
}

/// When the first player's mark fills the top row, the second player has no
/// winning line unless the second player's mark fills the middle or the
/// bottom row.
pub proof fn lemma_top_row_blocks_other(cells: Seq<u8>)
    requires
        cells.len() == CELL_COUNT,
        cells[0] == PLAYER_A && cells[1] == PLAYER_A && cells[2] == PLAYER_A,
        !(cells[3] == PLAYER_B && cells[4] == PLAYER_B && cells[5] == PLAYER_B),
        !(cells[6] == PLAYER_B && cells[7] == PLAYER_B && cells[8] == PLAYER_B),
    ensures
        !has_winning_line(cells, PLAYER_B),
{
    assert forall|k: int| 0 <= k < 8 implies !#[trigger] holds_line(cells, PLAYER_B, k) by {
    }
}

} // verus!
