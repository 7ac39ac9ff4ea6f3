use vstd::prelude::*;
use vstd::set_lib::lemma_set_disjoint_lens;

verus! {

/// The coordinates `(x, y)` of a grid that is `width` wide and `height` high.
pub open spec fn grid_cells(width: nat, height: nat) -> Set<(int, int)> {
    Set::new(|cell: (int, int)| 0 <= cell.0 < width && 0 <= cell.1 < height)
}

/// The coordinates of row `y` of a grid that is `width` wide.
pub open spec fn row_cells(width: nat, y: int) -> Set<(int, int)> {
    Set::new(|cell: (int, int)| 0 <= cell.0 < width && cell.1 == y)
}

/// A row of a grid has as many cells as the grid is wide.
pub proof fn lemma_row_cells_len(width: nat, y: int)
    ensures
        row_cells(width, y).finite(),
        row_cells(width, y).len() == width,
    decreases width,
{
    if width == 0 {
        assert(row_cells(width, y) =~= Set::empty());
    } else {
        let shorter = (width - 1) as nat;
        lemma_row_cells_len(shorter, y);
        assert(row_cells(width, y) =~= row_cells(shorter, y).insert((shorter as int, y)));
    }
}

/// A grid has `width * height` cells.
pub proof fn lemma_grid_cells_len(width: nat, height: nat)
    ensures
        grid_cells(width, height).finite(),
        grid_cells(width, height).len() == width * height,
    decreases height,
{
    if height == 0 {
        assert(grid_cells(width, height) =~= Set::empty());
        assert(width * height == 0) by (nonlinear_arith)
            requires
                height == 0,
        ;
    } else {
        let lower = (height - 1) as nat;
        let top = row_cells(width, lower as int);
        lemma_grid_cells_len(width, lower);
        lemma_row_cells_len(width, lower as int);
        assert(grid_cells(width, lower).disjoint(top));
        lemma_set_disjoint_lens(grid_cells(width, lower), top);
        assert(grid_cells(width, height) =~= grid_cells(width, lower) + top);
        assert(width * height == width * lower + width) by (nonlinear_arith)
            requires
                height == lower + 1,
        ;
    }
}

} // verus!
