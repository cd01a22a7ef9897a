use vstd::prelude::*;

verus! {

/// The value of a cell that holds no mark.
pub const EMPTY: u8 = 0;

/// The first player, who moves first and plays "X".
pub const PLAYER_A: u8 = 1;

/// The second player, who plays "O".
pub const PLAYER_B: u8 = 2;

/// Number of cells on the board.
pub const CELL_COUNT: usize = 9;

/// The game state: nine cells in row-major order and the player whose move is next.
///
/// A cell holds `EMPTY`, `PLAYER_A` or `PLAYER_B`; the player to move is always
/// `PLAYER_A` or `PLAYER_B`.
pub struct Board {
    grid_cells: Vec<u8>,
    current_player: u8,
}

/// The player who moves after `p`.
pub open spec fn other_player(p: u8) -> u8 {
    if p == PLAYER_B {
        PLAYER_A
    } else {
        PLAYER_B
    }
}

/// The 0-based cell index of a 1-based board position.
pub open spec fn cell_index(position: u8) -> int {
    position - 1
}

/// Whether `cells` are nine cells, each empty or marked by a player, and
/// `player` is one of the two players.
pub open spec fn is_valid_state(cells: Seq<u8>, player: u8) -> bool {
    &&& cells.len() == CELL_COUNT
    &&& forall|i: int| 0 <= i < CELL_COUNT ==> #[trigger] cells[i] <= PLAYER_B
    &&& player == PLAYER_A || player == PLAYER_B
}

/// The cell indices of the `k`-th winning line (`k` in 0 to 7): three rows,
/// three columns and the two diagonals.
pub open spec fn winning_line(k: int) -> (int, int, int) {
    if k == 0 {
        (0, 1, 2)
    } else if k == 1 {
        (3, 4, 5)
    } else if k == 2 {
        (6, 7, 8)
    } else if k == 3 {
        (0, 3, 6)
    } else if k == 4 {
        (1, 4, 7)
    } else if k == 5 {
        (2, 5, 8)
    } else if k == 6 {
        (0, 4, 8)
    } else {
        (2, 4, 6)
    }
}

/// Number of winning lines.
pub const LINE_COUNT: usize = 8;

/// Whether the three cells of line `k` all hold mark `p`.
pub open spec fn holds_line(cells: Seq<u8>, p: u8, k: int) -> bool {
    let (a, b, c) = winning_line(k);
    cells[a] == p && cells[b] == p && cells[c] == p
}

/// Whether mark `p` fills some winning line.
pub open spec fn has_winning_line(cells: Seq<u8>, p: u8) -> bool {
    exists|k: int| 0 <= k < LINE_COUNT && #[trigger] holds_line(cells, p, k)
}

/// Whether no cell is empty.
pub open spec fn is_full(cells: Seq<u8>) -> bool {
    forall|i: int| 0 <= i < CELL_COUNT ==> #[trigger] cells[i] != EMPTY
}

/// The text shown for a cell: "X" for the first player, "O" for the second,
/// a space for an empty cell.
pub open spec fn symbol_text(cell: u8) -> Seq<char> {
    if cell == PLAYER_A {
        "X"@
    } else if cell == PLAYER_B {
        "O"@
    } else {
        " "@
    }
}

/// The cell indices of the `k`-th winning line.
fn line_cells(k: usize) -> (r: (usize, usize, usize))
    requires
        k < LINE_COUNT,
    ensures
        (r.0 as int, r.1 as int, r.2 as int) == winning_line(k as int),
        r.0 < CELL_COUNT && r.1 < CELL_COUNT && r.2 < CELL_COUNT,
{
    match k {
        0 => (0, 1, 2),
        1 => (3, 4, 5),
        2 => (6, 7, 8),
        3 => (0, 3, 6),
        4 => (1, 4, 7),
        5 => (2, 5, 8),
        6 => (0, 4, 8),
        _ => (2, 4, 6),
    }
}

impl Board {
    /// Whether `self` is the state a game starts in: every cell empty and the
    /// first player to move.
    pub open spec fn is_fresh(self) -> bool {
        &&& forall|i: int| 0 <= i < CELL_COUNT ==> #[trigger] self.cells()[i] == EMPTY
        &&& self.player() == PLAYER_A
    }

    #[verifier::type_invariant]
    pub(crate) closed spec fn well_formed(self) -> bool {
        is_valid_state(self.grid_cells@, self.current_player)
    }

    pub(crate) proof fn lemma_well_formed_is_valid(self)
        requires
            self.well_formed(),
        ensures
            self.valid(),
    {
    }

    /// Whether the board holds nine cells, each empty or marked, and a player
    /// to move; true of every board.
    pub open spec fn valid(self) -> bool {
        is_valid_state(self.cells(), self.player())
    }

    /// The nine cells, in row-major order.
    pub closed spec fn cells(self) -> Seq<u8> {
        self.grid_cells@
    }

    /// The player whose move is next.
    pub closed spec fn player(self) -> u8 {
        self.current_player
    }

    /// Places the mark of the player to move at `cell_number` (1 to 9) when
    /// that cell is empty; on an occupied cell nothing changes.
    pub fn change_element(&mut self, cell_number: u8)
        requires
            1 <= cell_number <= 9,
        ensures
            old(self).valid(),
            final(self).valid(),
            final(self).player() == old(self).player(),
            old(self).cells()[cell_index(cell_number)] == EMPTY ==> final(self).cells()
                == old(self).cells().update(cell_index(cell_number), old(self).player()),
            old(self).cells()[cell_index(cell_number)] != EMPTY ==> final(self).cells()
                == old(self).cells(),
    {
        proof {
            use_type_invariant(&*self);
        }
        let index = cell_number as usize - 1;
        if self.grid_cells[index] == EMPTY {
            let mut cells = self.grid_cells.clone();
            cells.set(index, self.current_player);
            self.grid_cells = cells;
        }
    }

    /// The player whose move is next.
    pub fn get_current_player(&mut self) -> (r: u8)
        ensures
            old(self).valid(),
            r == old(self).player(),
            r == PLAYER_A || r == PLAYER_B,
            *final(self) == *old(self),
    {
        proof {
            use_type_invariant(&*self);
        }
        self.current_player
    }

    /// Hands the move to the other player.
    pub fn change_player(&mut self)
        ensures
            old(self).valid(),
            final(self).valid(),
            final(self).player() == other_player(old(self).player()),
            final(self).cells() == old(self).cells(),
    {
        proof {
            use_type_invariant(&*self);
        }
        if self.current_player == PLAYER_B {
            self.current_player = PLAYER_A;
        } else {
            self.current_player = PLAYER_B;
        }
    }

    /// Whether the cell at `cell_number` (1 to 9) holds no mark.
    pub fn check_element_is_empty(&mut self, cell_number: u8) -> (r: bool)
        requires
            1 <= cell_number <= 9,
        ensures
            old(self).valid(),
            r == (old(self).cells()[cell_index(cell_number)] == EMPTY),
            *final(self) == *old(self),
    {
        proof {
            use_type_invariant(&*self);
        }
        let index = cell_number as usize - 1;
        self.grid_cells[index] == EMPTY
    }

    /// The text shown for the cell at 0-based `index`: "X", "O" or a space.
    pub fn player_symbol(&self, index: usize) -> (r: &str)
        requires
            index < CELL_COUNT,
        ensures
            self.valid(),
            r@ == symbol_text(self.cells()[index as int]),
    {
        proof {
            use_type_invariant(self);
        }
        if self.grid_cells[index] == PLAYER_A {
            "X"
        } else if self.grid_cells[index] == PLAYER_B {
            "O"
        } else {
            " "
        }
    }
}


impl Default for Board {
    /// An empty board with the first player to move.
    fn default() -> (r: Self)
        ensures
            r.valid(),
            r.is_fresh(),
    {
        Board { grid_cells: vec![EMPTY; CELL_COUNT], current_player: PLAYER_A }
    }
}

/// Whether the player to move fills one of the eight winning lines.
pub fn check_win(input_board: &Board) -> (r: bool)
    ensures
        input_board.valid(),
        r == has_winning_line(input_board.cells(), input_board.player()),
{
    proof {
        use_type_invariant(input_board);
    }
    let cells = &input_board.grid_cells;
    let player = input_board.current_player;
    let mut k: usize = 0;
    while k < LINE_COUNT
        invariant
            k <= LINE_COUNT,
            input_board.valid(),
            cells@ == input_board.cells(),
            player == input_board.player(),
            forall|j: int| 0 <= j < k ==> !#[trigger] holds_line(cells@, player, j),
        decreases LINE_COUNT - k,
    {
        let (a, b, c) = line_cells(k);
        if cells[a] == player && cells[b] == player && cells[c] == player {
            assert(holds_line(cells@, player, k as int));
            return true;
        }
        k += 1;
    }
    false
}

/// Whether every cell holds a mark, whoever has won.
pub fn check_draw(input_board: &Board) -> (r: bool)
    ensures
        input_board.valid(),
        r == is_full(input_board.cells()),
{
    proof {
        use_type_invariant(input_board);
    }
    let cells = &input_board.grid_cells;
    let mut i: usize = 0;
    while i < CELL_COUNT
        invariant
            i <= CELL_COUNT,
            input_board.valid(),
            cells@ == input_board.cells(),
            forall|j: int| 0 <= j < i ==> #[trigger] cells@[j] != EMPTY,
        decreases CELL_COUNT - i,
    {
        if cells[i] == EMPTY {
            return false;
        }
        i += 1;
    }
    true
}

} // verus!
