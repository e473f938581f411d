use vstd::prelude::*;
use crate::board::{
    claimed, coordinates, grid_shape, in_grid, numbered, Grid, Opponent, OpponentSpot,
};
use crate::text::{board_cells, digit_char, grid_text, legend_cells, spot_char};

verus! {

/// A cell number from 1 to 9 names the same cell as the row `(n - 1) / 3` and
/// the column `(n - 1) % 3`; any other number names no cell.
pub proof fn lemma_number_is_row_major(n: int)
    ensures
        1 <= n <= 9 ==> numbered(n) == coordinates((n - 1) / 3, (n - 1) % 3),
        !(1 <= n <= 9) ==> numbered(n) is None,
{
}

/// The legend shows each number `n` in the cell that `n` names.
pub proof fn lemma_legend_matches_numbers(n: int)
    requires
        1 <= n <= 9,
    ensures
        numbered(n) matches Some(p) && legend_cells()[(3 * p.0 + p.1) as int] == seq![digit_char(n as nat)],
{
}

/// A claim keeps the shape of the grid.
pub proof fn lemma_claim_keeps_shape(g: Grid, p: (nat, nat), o: Opponent)
    requires
        grid_shape(g),
        in_grid(p.0 as int, p.1 as int),
    ensures
        grid_shape(claimed(g, p, o)),
{
}

/// A claim of an empty cell takes it for the claimant. A second claim of that
/// cell, by either player, changes nothing.
pub proof fn lemma_claim_empty_then_again(g: Grid, p: (nat, nat), o: Opponent, o2: Opponent)
    requires
        grid_shape(g),
        in_grid(p.0 as int, p.1 as int),
        g[p.0 as int][p.1 as int].0 is None,
    ensures
        claimed(g, p, o)[p.0 as int][p.1 as int] == OpponentSpot(Some(o)),
        claimed(claimed(g, p, o), p, o2) == claimed(g, p, o),
{
}

/// After `X` claims a cell and `O` claims it too, the cell is still `X`'s.
pub proof fn lemma_first_claim_stands(g: Grid, p: (nat, nat))
    requires
        grid_shape(g),
        in_grid(p.0 as int, p.1 as int),
        g[p.0 as int][p.1 as int].0 is None,
    ensures
        claimed(claimed(g, p, Opponent::X), p, Opponent::O)[p.0 as int][p.1 as int]
            == OpponentSpot(Some(Opponent::X)),
{
}

/// A claim never empties a taken cell nor gives it to the other player.
pub proof fn lemma_taken_cells_stay(g: Grid, p: (nat, nat), o: Opponent, q: (nat, nat))
    requires
        grid_shape(g),
        in_grid(p.0 as int, p.1 as int),
        in_grid(q.0 as int, q.1 as int),
        g[q.0 as int][q.1 as int].0 is Some,
    ensures
        claimed(g, p, o)[q.0 as int][q.1 as int] == g[q.0 as int][q.1 as int],
{
}

/// A claim changes no cell but the one claimed.
pub proof fn lemma_claim_is_local(g: Grid, p: (nat, nat), o: Opponent, q: (nat, nat))
    requires
        grid_shape(g),
        in_grid(p.0 as int, p.1 as int),
        in_grid(q.0 as int, q.1 as int),
        q != p,
    ensures
        claimed(g, p, o)[q.0 as int][q.1 as int] == g[q.0 as int][q.1 as int],
{
}

/// The nine cells of the grid.
pub open spec fn all_cells() -> Set<(nat, nat)> {
    set![(0, 0), (0, 1), (0, 2), (1, 0), (1, 1), (1, 2), (2, 0), (2, 1), (2, 2)]
}

/// The cells of `g` that are taken.
pub open spec fn occupied(g: Grid) -> Set<(nat, nat)> {
    all_cells().filter(|q: (nat, nat)| g[q.0 as int][q.1 as int].0 is Some)
}

/// A claim that finds its cell empty adds that cell to the taken ones, and
/// so one to their number; a claim that finds it taken changes neither.
pub proof fn lemma_claim_counts(g: Grid, p: (nat, nat), o: Opponent)
    requires
        grid_shape(g),
        in_grid(p.0 as int, p.1 as int),
    ensures
        occupied(g).finite(),
        g[p.0 as int][p.1 as int].0 is None ==> occupied(claimed(g, p, o)) == occupied(g).insert(p)
            && occupied(claimed(g, p, o)).len() == occupied(g).len() + 1,
        g[p.0 as int][p.1 as int].0 is Some ==> occupied(claimed(g, p, o)) == occupied(g),
{
    let h = claimed(g, p, o);
    assert(all_cells().contains(p));
    if g[p.0 as int][p.1 as int].0 is None {
        assert(!occupied(g).contains(p));
        assert(occupied(h) =~= occupied(g).insert(p));
    }
}

/// The characters of the layout of nine one-character cells.
pub open spec fn flat_grid(c: Seq<char>) -> Seq<char> {
    seq![
        '[', '[', c[0], ',', ' ', c[1], ',', ' ', c[2], ']', ',', '\n', ' ', '[', c[3], ',', ' ', c[4],
        ',', ' ', c[5], ']', ',', '\n', ' ', '[', c[6], ',', ' ', c[7], ',', ' ', c[8], ']', ']',
    ]
}

/// The layout of nine one-character cells, character by character.
pub proof fn lemma_grid_text_flat(cells: Seq<Seq<char>>)
    requires
        cells.len() == 9,
        forall|i: int| 0 <= i < 9 ==> (#[trigger] cells[i]).len() == 1,
    ensures
        grid_text(cells) == flat_grid(Seq::new(9, |i: int| cells[i][0])),
{
    reveal_strlit("[[");
    reveal_strlit(", ");
    reveal_strlit("],\n [");
    reveal_strlit("]]");
    assert forall|i: int| 0 <= i < 9 implies #[trigger] cells[i] == seq![cells[i][0]] by {
        assert(cells[i] =~= seq![cells[i][0]]);
    }
    assert(grid_text(cells) =~= flat_grid(Seq::new(9, |i: int| cells[i][0])));
}

/// Changing the cell `k` of nine one-character cells changes one character
/// of their layout, at `2 + 12 * (k / 3) + 3 * (k % 3)`.
pub proof fn lemma_flat_grid_update(c: Seq<char>, k: int, x: char)
    requires
        c.len() == 9,
        0 <= k < 9,
    ensures
        flat_grid(c.update(k, x)) == flat_grid(c).update(2 + 12 * (k / 3) + 3 * (k % 3), x),
{
    let d = c.update(k, x);
    if k == 0 {
        assert(flat_grid(d) =~= flat_grid(c).update(2, x));
    } else if k == 1 {
        assert(flat_grid(d) =~= flat_grid(c).update(5, x));
    } else if k == 2 {
        assert(flat_grid(d) =~= flat_grid(c).update(8, x));
    } else if k == 3 {
        assert(flat_grid(d) =~= flat_grid(c).update(14, x));
    } else if k == 4 {
        assert(flat_grid(d) =~= flat_grid(c).update(17, x));
    } else if k == 5 {
        assert(flat_grid(d) =~= flat_grid(c).update(20, x));
    } else if k == 6 {
        assert(flat_grid(d) =~= flat_grid(c).update(26, x));
    } else if k == 7 {
        assert(flat_grid(d) =~= flat_grid(c).update(29, x));
    } else {
        assert(flat_grid(d) =~= flat_grid(c).update(32, x));
    }
}

/// After a claim that finds its cell empty, the rendered board differs from
/// the one before only in that cell's character, at `2 + 12 * row + 3 * col`,
/// which becomes the claimant's symbol.
pub proof fn lemma_claim_changes_one_character(g: Grid, p: (nat, nat), o: Opponent)
    requires
        grid_shape(g),
        in_grid(p.0 as int, p.1 as int),
        g[p.0 as int][p.1 as int].0 is None,
    ensures
        grid_text(board_cells(claimed(g, p, o))) == grid_text(board_cells(g)).update(
            (2 + 12 * p.0 + 3 * p.1) as int,
            spot_char(OpponentSpot(Some(o))),
        ),
{
    let h = claimed(g, p, o);
    let x = spot_char(OpponentSpot(Some(o)));
    let k = (3 * p.0 + p.1) as int;
    lemma_grid_text_flat(board_cells(g));
    lemma_grid_text_flat(board_cells(h));
    let a = Seq::new(9, |i: int| board_cells(g)[i][0]);
    let b = Seq::new(9, |i: int| board_cells(h)[i][0]);
    assert(k / 3 == p.0 && k % 3 == p.1);
    assert forall|i: int| 0 <= i < 9 implies #[trigger] b[i] == a.update(k, x)[i] by {
        if i == k {
            assert(h[p.0 as int][p.1 as int] == OpponentSpot(Some(o)));
        } else {
            assert(i / 3 != p.0 || i % 3 != p.1);
        }
    }
    assert(b =~= a.update(k, x));
    lemma_flat_grid_update(a, k, x);
}

} // verus!
