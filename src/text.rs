use vstd::prelude::*;
use vstd::string::*;
use crate::board::{Board, Grid, Opponent, OpponentSpot, Position, PositionTakenError};

verus! {

/// The symbol of a cell: `X`, `O`, or `_` when empty.
pub open spec fn spot_char(s: OpponentSpot) -> char {
    match s.0 {
        Some(Opponent::X) => 'X',
        Some(Opponent::O) => 'O',
        None => '_',
    }
}

/// The decimal digit for `d`, for `d` below 10.
pub open spec fn digit_char(d: nat) -> char {
    if d == 0 {
        '0'
    } else if d == 1 {
        '1'
    } else if d == 2 {
        '2'
    } else if d == 3 {
        '3'
    } else if d == 4 {
        '4'
    } else if d == 5 {
        '5'
    } else if d == 6 {
        '6'
    } else if d == 7 {
        '7'
    } else if d == 8 {
        '8'
    } else {
        '9'
    }
}

/// `(row, col)`.
pub open spec fn position_text(p: (nat, nat)) -> Seq<char> {
    seq!['(', digit_char(p.0), ',', ' ', digit_char(p.1), ')']
}

/// The message of a claim that found the cell at `p` taken, as `s`.
pub open spec fn taken_text(p: (nat, nat), s: OpponentSpot) -> Seq<char> {
    "Position "@ + position_text(p) + " is already taken by '"@ + seq![spot_char(s)] + "'"@
}

/// The three cells of the row that starts at `k`, separated by `, `.
pub open spec fn row_text(cells: Seq<Seq<char>>, k: int) -> Seq<char> {
    cells[k] + ", "@ + cells[k + 1] + ", "@ + cells[k + 2]
}

/// Nine cells, given row by row, laid out as three bracketed rows.
pub open spec fn grid_text(cells: Seq<Seq<char>>) -> Seq<char> {
    "[["@ + row_text(cells, 0) + "],\n ["@ + row_text(cells, 3) + "],\n ["@ + row_text(cells, 6)
        + "]]"@
}

/// The symbols of a grid's cells, row by row.
pub open spec fn board_cells(g: Grid) -> Seq<Seq<char>> {
    Seq::new(9, |i: int| seq![spot_char(g[i / 3][i % 3])])
}

/// The numbers 1 to 9, as the cells of the numbering legend.
pub open spec fn legend_cells() -> Seq<Seq<char>> {
    Seq::new(9, |i: int| seq![digit_char((i + 1) as nat)])
}

fn digit_str(d: usize) -> (r: &'static str)
    requires
        d < 10,
    ensures
        r@ == seq![digit_char(d as nat)],
{
    proof {
        reveal_strlit("0");
        reveal_strlit("1");
        reveal_strlit("2");
        reveal_strlit("3");
        reveal_strlit("4");
        reveal_strlit("5");
        reveal_strlit("6");
        reveal_strlit("7");
        reveal_strlit("8");
        reveal_strlit("9");
    }
    if d == 0 {
        "0"
    } else if d == 1 {
        "1"
    } else if d == 2 {
        "2"
    } else if d == 3 {
        "3"
    } else if d == 4 {
        "4"
    } else if d == 5 {
        "5"
    } else if d == 6 {
        "6"
    } else if d == 7 {
        "7"
    } else if d == 8 {
        "8"
    } else {
        "9"
    }
}

fn append_row(s: &mut String, cells: &Vec<&str>, k: usize)
    requires
        k + 2 < cells.len(),
    ensures
        final(s)@ == old(s)@ + row_text(cells@.map_values(|c: &str| c@), k as int),
{
    s.append(cells[k]);
    s.append(", ");
    s.append(cells[k + 1]);
    s.append(", ");
    s.append(cells[k + 2]);
    assert(final(s)@ =~= old(s)@ + row_text(cells@.map_values(|c: &str| c@), k as int));
}

fn grid_string(cells: &Vec<&str>) -> (r: String)
    requires
        cells.len() == 9,
    ensures
        r@ == grid_text(cells@.map_values(|c: &str| c@)),
{
    let mut s = String::new();
    s.append("[[");
    append_row(&mut s, cells, 0);
    s.append("],\n [");
    append_row(&mut s, cells, 3);
    s.append("],\n [");
    append_row(&mut s, cells, 6);
    s.append("]]");
    assert(s@ =~= grid_text(cells@.map_values(|c: &str| c@)));
    s
}

impl OpponentSpot {
    /// `X`, `O`, or `_` for an empty cell.
    pub fn symbol(&self) -> (r: &'static str)
        ensures
            r@ == seq![spot_char(*self)],
    {
        proof {
            reveal_strlit("X");
            reveal_strlit("O");
            reveal_strlit("_");
        }
        match self.0 {
            Some(Opponent::X) => "X",
            Some(Opponent::O) => "O",
            None => "_",
        }
    }
}

impl Position {
    /// `(row, col)`.
    pub fn render(&self) -> (r: String)
        ensures
            r@ == position_text(self@),
    {
        let mut s = String::new();
        s.append("(");
        s.append(digit_str(self.row()));
        s.append(", ");
        s.append(digit_str(self.col()));
        s.append(")");
        proof {
            reveal_strlit("(");
            reveal_strlit(", ");
            reveal_strlit(")");
        }
        assert(s@ =~= position_text(self@));
        s
    }
}

impl PositionTakenError {
    /// `Position (row, col) is already taken by 'S'`, where `S` is the symbol
    /// of the cell that was found.
    pub fn message(&self) -> (r: String)
        ensures
            r@ == taken_text(self.spec_pos()@, self.spec_opponent()),
    {
        let mut s = String::new();
        s.append("Position ");
        let p = self.pos().render();
        s.append(p.as_str());
        s.append(" is already taken by '");
        s.append(self.opponent().symbol());
        s.append("'");
        assert(s@ =~= taken_text(self.spec_pos()@, self.spec_opponent()));
        s
    }
}

impl Board {
    /// The grid as three bracketed rows of `X`, `O` and `_`.
    pub fn render(&self) -> (r: String)
        ensures
            r@ == grid_text(board_cells(self@)),
    {
        let mut cells: Vec<&str> = Vec::new();
        let mut i: usize = 0;
        while i < 9
            invariant
                i <= 9,
                cells.len() == i,
                forall|j: int| 0 <= j < i ==> (#[trigger] cells@[j])@ == board_cells(self@)[j],
            decreases 9 - i,
        {
            let p = Position::new(i / 3, i % 3).unwrap();
            cells.push(self.get(p).symbol());
            i += 1;
        }
        assert(cells@.map_values(|c: &str| c@) =~= board_cells(self@));
        grid_string(&cells)
    }

    /// The legend of the numbers that `Position::from_num` takes, laid out as
    /// the grid is.
    pub fn positions_legend() -> (r: String)
        ensures
            r@ == grid_text(legend_cells()),
    {
        let mut cells: Vec<&str> = Vec::new();
        let mut i: usize = 0;
        while i < 9
            invariant
                i <= 9,
                cells.len() == i,
                forall|j: int| 0 <= j < i ==> (#[trigger] cells@[j])@ == legend_cells()[j],
            decreases 9 - i,
        {
            cells.push(digit_str(i + 1));
            i += 1;
        }
        assert(cells@.map_values(|c: &str| c@) =~= legend_cells());
        grid_string(&cells)
    }
}

} // verus!
