use vstd::prelude::*;

verus! {

/// One of the two players.
#[derive(Debug, Clone, Copy, PartialEq, Eq, Structural)]
pub enum Opponent {
    X,
    O,
}

/// The state of one cell: empty, or taken by a player.
#[derive(Debug, Clone, Copy, PartialEq, Eq, Structural)]
pub struct OpponentSpot(pub Option<Opponent>);

/// A (row, column) pair that always lies inside the grid.
#[derive(Debug, Clone, Copy, PartialEq, Eq, Structural)]
pub struct Position(usize, usize);

/// Row `row` and column `col` lie inside the 3x3 grid.
pub open spec fn in_grid(row: int, col: int) -> bool {
    0 <= row < 3 && 0 <= col < 3
}

/// The coordinates that `Position::new(row, col)` stands for, if any.
pub open spec fn coordinates(row: int, col: int) -> Option<(nat, nat)> {
    if in_grid(row, col) {
        Some((row as nat, col as nat))
    } else {
        None
    }
}

/// The coordinates of the cell numbered `n`, counting 1 to 9 row by row.
pub open spec fn numbered(n: int) -> Option<(nat, nat)> {
    if 1 <= n <= 9 {
        Some((((n - 1) / 3) as nat, ((n - 1) % 3) as nat))
    } else {
        None
    }
}

/// The coordinates of an optional position.
pub open spec fn view_position(p: Option<Position>) -> Option<(nat, nat)> {
    match p {
        Some(q) => Some(q@),
        None => None,
    }
}

impl View for Position {
    type V = (nat, nat);

    closed spec fn view(&self) -> (nat, nat) {
        (self.0 as nat, self.1 as nat)
    }
}

impl Position {
    #[verifier::type_invariant]
    spec fn inside(self) -> bool {
        self.0 < 3 && self.1 < 3
    }

    /// The position at `row`, `col`; `None` when either is 3 or more.
    pub fn new(row: usize, col: usize) -> (r: Option<Position>)
        ensures
            view_position(r) == coordinates(row as int, col as int),
    {
        if row < 3 && col < 3 {
            Some(Position(row, col))
        } else {
            None
        }
    }

    /// The row, from 0 to 2.
    pub fn row(&self) -> (r: usize)
        ensures
            r as nat == self@.0,
            r < 3,
    {
        proof {
            use_type_invariant(self);
        }
        self.0
    }

    /// The column, from 0 to 2.
    pub fn col(&self) -> (r: usize)
        ensures
            r as nat == self@.1,
            r < 3,
    {
        proof {
            use_type_invariant(self);
        }
        self.1
    }

    /// The position numbered `num` when the cells are counted 1 to 9 row by
    /// row; `None` outside `1..=9`.
    pub fn from_num(num: u8) -> (r: Option<Position>)
        ensures
            view_position(r) == numbered(num as int),
    {
        if num == 0 {
            return None;
        }
        let k: u8 = num - 1;
        Position::new((k / 3) as usize, (k % 3) as usize)
    }
}

/// Error of a claim on a cell that is already taken: the position and the
/// cell as it stood.
#[derive(Debug)]
pub struct PositionTakenError {
    pos: Position,
    opponent: OpponentSpot,
}

impl PositionTakenError {
    /// The position that was asked for.
    pub closed spec fn spec_pos(&self) -> Position {
        self.pos
    }

    /// The cell that was found there.
    pub closed spec fn spec_opponent(&self) -> OpponentSpot {
        self.opponent
    }

    /// The position that was asked for.
    pub fn pos(&self) -> (r: Position)
        ensures
            r == self.spec_pos(),
    {
        self.pos
    }

    /// The cell that was found there.
    pub fn opponent(&self) -> (r: OpponentSpot)
        ensures
            r == self.spec_opponent(),
    {
        self.opponent
    }
}

/// The outcome of a claim.
pub type SetBoardResult = Result<(), PositionTakenError>;

/// The grid as cells by row, then by column.
pub type Grid = Seq<Seq<OpponentSpot>>;

/// The grid in which every cell is empty.
pub open spec fn empty_grid() -> Grid {
    Seq::new(3, |r: int| Seq::new(3, |c: int| OpponentSpot(None)))
}

/// The grid `g` with the cell at `p` replaced by `s`.
pub open spec fn grid_set(g: Grid, p: (nat, nat), s: OpponentSpot) -> Grid {
    g.update(p.0 as int, g[p.0 as int].update(p.1 as int, s))
}

/// The grid after a claim of the cell at `p` by `o`: taken when it was empty,
/// unchanged otherwise.
pub open spec fn claimed(g: Grid, p: (nat, nat), o: Opponent) -> Grid {
    if g[p.0 as int][p.1 as int].0 is None {
        grid_set(g, p, OpponentSpot(Some(o)))
    } else {
        g
    }
}

/// Every row of `g`, and `g` itself, has three cells.
pub open spec fn grid_shape(g: Grid) -> bool {
    g.len() == 3 && forall|r: int| 0 <= r < 3 ==> (#[trigger] g[r]).len() == 3
}

/// The cells themselves; the only place that can overwrite one.
#[derive(Debug)]
struct BoardImpl([[OpponentSpot; 3]; 3]);

impl View for BoardImpl {
    type V = Grid;

    closed spec fn view(&self) -> Grid {
        self.0@.map_values(|row: [OpponentSpot; 3]| row@)
    }
}

impl BoardImpl {
    fn new() -> (r: BoardImpl)
        ensures
            r@ == empty_grid(),
    {
        let e = OpponentSpot(None);
        let r = BoardImpl([[e, e, e], [e, e, e], [e, e, e]]);
        assert(r@ =~~= empty_grid());
        r
    }

    fn at(&self, pos: Position) -> (r: OpponentSpot)
        ensures
            in_grid(pos@.0 as int, pos@.1 as int),
            r == self@[pos@.0 as int][pos@.1 as int],
    {
        proof {
            use_type_invariant(pos);
        }
        self.0[pos.0][pos.1]
    }

    fn put(&mut self, pos: Position, spot: OpponentSpot)
        ensures
            in_grid(pos@.0 as int, pos@.1 as int),
            final(self)@ == grid_set(old(self)@, pos@, spot),
    {
        proof {
            use_type_invariant(pos);
        }
        let mut row = self.0[pos.0];
        row[pos.1] = spot;
        self.0[pos.0] = row;
        assert(self@ =~~= grid_set(old(self)@, pos@, spot));
    }
}

/// A 3x3 board. Cells are read through `get` and written only through `set`,
/// which never overwrites a taken cell.
#[derive(Debug)]
pub struct Board(BoardImpl);

impl View for Board {
    type V = Grid;

    closed spec fn view(&self) -> Grid {
        self.0@
    }
}

impl Board {
    /// Every board has three rows of three cells.
    pub proof fn lemma_shape(&self)
        ensures
            grid_shape(self@),
    {
        broadcast use vstd::array::group_array_axioms;

        assert forall|r: int| 0 <= r < 3 implies (#[trigger] self@[r]).len() == 3 by {
            assert(self@[r] == self.0.0[r]@);
        }
    }

    /// A board whose cells are all empty.
    pub fn new() -> (r: Board)
        ensures
            r@ == empty_grid(),
            grid_shape(r@),
    {
        Board(BoardImpl::new())
    }

    /// The cell at `pos`.
    pub fn get(&self, pos: Position) -> (r: OpponentSpot)
        ensures
            in_grid(pos@.0 as int, pos@.1 as int),
            r == self@[pos@.0 as int][pos@.1 as int],
    {
        self.0.at(pos)
    }

    /// Claims the cell at `pos` for `opponent`. A taken cell is left as it
    /// is, and the error holds `pos` and the cell.
    pub fn set(&mut self, pos: Position, opponent: Opponent) -> (r: SetBoardResult)
        ensures
            in_grid(pos@.0 as int, pos@.1 as int),
            grid_shape(final(self)@),
            final(self)@ == claimed(old(self)@, pos@, opponent),
            r is Ok <==> old(self)@[pos@.0 as int][pos@.1 as int].0 is None,
            r matches Err(e) ==> e.spec_pos() == pos && e.spec_opponent() == old(
                self,
            )@[pos@.0 as int][pos@.1 as int],
    {
        proof {
            self.lemma_shape();
        }
        let spot = self.0.at(pos);
        match spot.0 {
            None => {
                self.0.put(pos, OpponentSpot(Some(opponent)));
                Ok(())
            },
            Some(_) => Err(PositionTakenError { pos, opponent: spot }),
        }
    }
}

} // verus!
