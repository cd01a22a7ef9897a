use vstd::prelude::*;

use crate::board::{symbol_text, Board};

verus! {

/// The text of the board display: a key of positions 1 to 9 on the left and
/// the marks of the nine cells, row by row, on the right.
pub open spec fn board_layout(c: Seq<u8>) -> Seq<char> {
    "Key:          Game Board:\n\n  1 │ 2 │ 3     "@ + symbol_text(c[0]) + " │ "@ + symbol_text(
        c[1],
    ) + " │ "@ + symbol_text(c[2]) + " \n ───┼───┼───   ───┼───┼───\n  4 │ 5 │ 6     "@
        + symbol_text(c[3]) + " │ "@ + symbol_text(c[4]) + " │ "@ + symbol_text(c[5])
        + " \n ───┼───┼───   ───┼───┼───\n  7 │ 8 │ 9     "@ + symbol_text(c[6]) + " │ "@
        + symbol_text(c[7]) + " │ "@ + symbol_text(c[8]) + " "@
}

impl Board {
    /// The board display: the key of positions beside the current marks.
    pub fn board_text(&self) -> (r: String)
        ensures
            r@ == board_layout(self.cells()),
    {
        let mut text = String::from_str("Key:          Game Board:\n\n  1 │ 2 │ 3     ");
        text.append(self.player_symbol(0));
        text.append(" │ ");
        text.append(self.player_symbol(1));
        text.append(" │ ");
        text.append(self.player_symbol(2));
        text.append(" \n ───┼───┼───   ───┼───┼───\n  4 │ 5 │ 6     ");
        text.append(self.player_symbol(3));
        text.append(" │ ");
        text.append(self.player_symbol(4));
        text.append(" │ ");
        text.append(self.player_symbol(5));
        text.append(" \n ───┼───┼───   ───┼───┼───\n  7 │ 8 │ 9     ");
        text.append(self.player_symbol(6));
        text.append(" │ ");
        text.append(self.player_symbol(7));
        text.append(" │ ");
        text.append(self.player_symbol(8));
        text.append(" ");
        text
    }
}

} // verus!
