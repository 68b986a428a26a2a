use vstd::prelude::*;

verus! {

/// Half-extent, in grid units, of the default ground grid.
pub const DEFAULT_GRID_SIZE: i32 = 600;

/// Spacing, in grid units, of the major lines of the default ground grid.
pub const DEFAULT_GRID_DIVISION: i32 = 12;

/// One end of a grid line segment, in integer grid units on the grid's
/// plane. `major` tells whether the segment belongs to a major line, one
/// whose offset is a multiple of the division.
#[derive(Debug, Clone, Copy, PartialEq, Eq, Structural)]
pub struct GridVertex {
    pub u: i32,
    pub v: i32,
    pub major: bool,
}

pub open spec fn grid_vertex(u: int, v: int, major: bool) -> GridVertex {
    GridVertex { u: u as i32, v: v as i32, major }
}

/// Whether the lines at offset `i` are major lines.
pub open spec fn is_major(i: int, div: int) -> bool {
    (if i < 0 { -i } else { i }) % div == 0
}

/// The two segments drawn for offset `i` and step `j`: one along `u` at
/// `v = i` and one along `v` at `u = i`, each one division long, each given
/// as a pair of endpoints.
pub open spec fn grid_quad(i: int, j: int, div: int) -> Seq<GridVertex> {
    let m = is_major(i, div);
    seq![
        grid_vertex((j + 1) * div, i, m),
        grid_vertex(j * div, i, m),
        grid_vertex(i, (j + 1) * div, m),
        grid_vertex(i, j * div, m),
    ]
}

/// The segments at offset `i` for the steps `-subgrid <= j < j_end`.
pub open spec fn grid_row(i: int, div: int, subgrid: int, j_end: int) -> Seq<GridVertex>
    decreases j_end + subgrid,
{
    if j_end <= -subgrid {
        Seq::empty()
    } else {
        grid_row(i, div, subgrid, j_end - 1) + grid_quad(i, j_end - 1, div)
    }
}

/// The segments at the offsets `-size <= i < i_end`.
pub open spec fn grid_rows(size: int, div: int, i_end: int) -> Seq<GridVertex>
    decreases i_end + size,
{
    if i_end <= -size {
        Seq::empty()
    } else {
        grid_rows(size, div, i_end - 1) + grid_row(i_end - 1, div, size / div, size / div)
    }
}

/// The vertex pairs of a square grid reaching `size` units from the origin
/// in each direction, with a segment for every unit offset and every
/// division-long step. A negative size or a divisor below one draws nothing.
pub open spec fn grid_spec(size: int, div: int) -> Seq<GridVertex> {
    if size < 0 || div <= 0 {
        Seq::empty()
    } else {
        grid_rows(size, div, size + 1)
    }
}

proof fn lemma_step_bounds(j: int, subgrid: int, div: int, size: int)
    requires
        0 <= size,
        0 < div,
        subgrid == size / div,
        -subgrid <= j < subgrid,
    ensures
        -size <= j * div < (j + 1) * div <= size,
{
    vstd::arithmetic::div_mod::lemma_fundamental_div_mod(size, div);
    assert(subgrid * div <= size) by (nonlinear_arith)
        requires
            size == div * subgrid + size % div,
            0 <= size % div,
    ;
    assert(-size <= j * div) by (nonlinear_arith)
        requires
            -subgrid <= j,
            subgrid * div <= size,
            0 < div,
    ;
    assert((j + 1) * div <= size) by (nonlinear_arith)
        requires
            j + 1 <= subgrid,
            subgrid * div <= size,
            0 < div,
    ;
    assert(j * div < (j + 1) * div) by (nonlinear_arith)
        requires
            0 < div,
    ;
}

proof fn lemma_grid_row_len(i: int, div: int, subgrid: int, j_end: int)
    requires
        -subgrid <= j_end,
    ensures
        grid_row(i, div, subgrid, j_end).len() == 4 * (j_end + subgrid),
    decreases j_end + subgrid,
{
    if j_end > -subgrid {
        lemma_grid_row_len(i, div, subgrid, j_end - 1);
    }
}

proof fn lemma_grid_rows_len(size: int, div: int, i_end: int)
    requires
        0 <= size,
        0 < div,
        -size <= i_end,
    ensures
        grid_rows(size, div, i_end).len() == (i_end + size) * (8 * (size / div)),
    decreases i_end + size,
{
    if i_end > -size {
        let q = size / div;
        lemma_grid_rows_len(size, div, i_end - 1);
        assert(q >= 0) by (nonlinear_arith)
            requires
                0 <= size,
                0 < div,
                q == size / div,
        ;
        lemma_grid_row_len(i_end - 1, div, q, q);
        assert((i_end - 1 + size) * (8 * q) + 4 * (q + q) == (i_end + size) * (8 * q))
            by (nonlinear_arith);
    } else {
        assert((i_end + size) * (8 * (size / div)) == 0) by (nonlinear_arith)
            requires
                i_end + size == 0,
        ;
    }
}

/// A grid of half-extent `size` has `2 * size + 1` offsets, each with
/// `2 * (size / div)` steps of four vertices.
pub proof fn lemma_grid_len(size: int, div: int)
    requires
        0 <= size,
        0 < div,
    ensures
        grid_spec(size, div).len() == (2 * size + 1) * (8 * (size / div)),
{
    lemma_grid_rows_len(size, div, size + 1);
}

/// Lays out a ground grid as pairs of line endpoints in grid units. Callers
/// scale the units and map them into 3D.
pub fn grid(size: i32, div: i32) -> (r: Vec<GridVertex>)
    ensures
        r@ == grid_spec(size as int, div as int),
{
    let mut vertices: Vec<GridVertex> = Vec::new();
    if size < 0 || div <= 0 {
        return vertices;
    }
    let subgrid: i32 = size / div;
    let mut i: i32 = -size;
    while i <= size
        invariant_except_break
            0 <= size,
            0 < div,
            subgrid == size / div,
            -size <= i <= size,
            vertices@ == grid_rows(size as int, div as int, i as int),
        ensures
            vertices@ == grid_rows(size as int, div as int, size + 1),
        decreases size - i,
    {
        let magnitude: i32 = if i < 0 {
            -i
        } else {
            i
        };
        let major = magnitude % div == 0;
        let mut j: i32 = -subgrid;
        while j < subgrid
            invariant
                0 <= size,
                0 < div,
                subgrid == size / div,
                -size <= i <= size,
                major == is_major(i as int, div as int),
                -subgrid <= j <= subgrid,
                vertices@ == grid_rows(size as int, div as int, i as int) + grid_row(
                    i as int,
                    div as int,
                    subgrid as int,
                    j as int,
                ),
            decreases subgrid - j,
        {
            proof {
                lemma_step_bounds(j as int, subgrid as int, div as int, size as int);
            }
            let ghost before = vertices@;
            let lo = j * div;
            let hi = (j + 1) * div;
            vertices.push(GridVertex { u: hi, v: i, major });
            vertices.push(GridVertex { u: lo, v: i, major });
            vertices.push(GridVertex { u: i, v: hi, major });
            vertices.push(GridVertex { u: i, v: lo, major });
            assert(vertices@ =~= before + grid_quad(i as int, j as int, div as int));
            assert(grid_row(i as int, div as int, subgrid as int, j + 1) == grid_row(
                i as int,
                div as int,
                subgrid as int,
                j as int,
            ) + grid_quad(i as int, j as int, div as int));
            assert(vertices@ =~= grid_rows(size as int, div as int, i as int) + grid_row(
                i as int,
                div as int,
                subgrid as int,
                j + 1,
            ));
            j += 1;
        }
        assert(grid_rows(size as int, div as int, i + 1) == grid_rows(
            size as int,
            div as int,
            i as int,
        ) + grid_row(i as int, div as int, subgrid as int, subgrid as int));
        if i == size {
            break;
        }
        i += 1;
    }
    vertices
}

/// The ground grid drawn under the point cloud: 600 units in each
/// direction, with a major line every 12 units.
pub fn default_grid() -> (r: Vec<GridVertex>)
    ensures
        r@ == grid_spec(DEFAULT_GRID_SIZE as int, DEFAULT_GRID_DIVISION as int),
{
    grid(DEFAULT_GRID_SIZE, DEFAULT_GRID_DIVISION)
}

} // verus!
