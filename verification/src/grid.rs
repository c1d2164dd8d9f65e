//! The index list of a grid of quads.
//!
//! A grid of `xcount` by `ycount` cells has `xcount + 1` vertices in each of
//! its `ycount + 1` rows. The vertices are numbered row by row, from `0`.

use vstd::prelude::*;

verus! {

/// The number of the vertex at corner `corner` of the cell in column `ix`
/// and row `iy`. The corners are counted from the one with the lowest
/// number, along the row, down to the next row, and back.
pub open spec fn quad_corner(xcount: int, ix: int, iy: int, corner: int) -> int {
    let xwidth = xcount + 1;
    if corner == 0 {
        ix + iy * xwidth
    } else if corner == 1 {
        (ix + 1) + iy * xwidth
    } else if corner == 2 {
        (ix + 1) + (iy + 1) * xwidth
    } else {
        ix + (iy + 1) * xwidth
    }
}

/// Where the corner `corner` of the cell in column `ix` and row `iy` stands
/// in the index list: the cells stand row by row, four corners each.
pub open spec fn quad_position(xcount: int, ix: int, iy: int, corner: int) -> int {
    4 * (iy * xcount + ix) + corner
}

/// The corners of the cells before the cell in column `ix` and row `iy`
/// stand in `index` where they belong.
spec fn quads_before(index: Seq<u32>, xcount: int, ix: int, iy: int) -> bool {
    forall|jx: int, jy: int, corner: int|
        0 <= jx < xcount && 0 <= jy && (jy < iy || (jy == iy && jx < ix)) && 0 <= corner < 4
            ==> #[trigger] index[quad_position(xcount, jx, jy, corner)] == quad_corner(
            xcount,
            jx,
            jy,
            corner,
        )
}

/// Every vertex of a cell has a number below the number of vertices.
pub proof fn lemma_quad_corner_bound(xcount: int, ycount: int, ix: int, iy: int, corner: int)
    requires
        0 <= ix < xcount,
        0 <= iy < ycount,
        0 <= corner < 4,
    ensures
        0 <= quad_corner(xcount, ix, iy, corner) < (xcount + 1) * (ycount + 1),
{
    let xwidth = xcount + 1;
    assert(0 <= iy * xwidth && (iy + 1) * xwidth <= ycount * xwidth && xwidth * (ycount + 1)
        == ycount * xwidth + xwidth && (iy + 1) * xwidth == iy * xwidth + xwidth)
        by (nonlinear_arith)
        requires
            0 <= iy < ycount,
            0 < xwidth,
    ;
}

/// A cell that stands in an earlier row, or earlier in the same row, stands
/// earlier in the index list.
proof fn lemma_quad_position(xcount: int, jx: int, jy: int, ix: int, iy: int)
    requires
        0 <= jx < xcount,
        0 <= ix <= xcount,
        0 <= jy,
        jy < iy || (jy == iy && jx < ix),
    ensures
        0 <= jy * xcount + jx < iy * xcount + ix,
{
    assert(0 <= jy * xcount) by (nonlinear_arith)
        requires
            0 <= jy,
            0 < xcount,
    ;
    if jy < iy {
        assert(jy * xcount + xcount <= iy * xcount) by (nonlinear_arith)
            requires
                0 <= jy < iy,
                0 < xcount,
        ;
    }
}

/// Lists the vertices of every cell of a grid of `xcount` by `ycount` cells,
/// cell by cell along each row, four corners for each cell.
///
/// The number of every vertex has to be a number of 32 bits.
pub fn quad_indices(xcount: usize, ycount: usize) -> (index: Vec<u32>)
    requires
        (xcount + 1) * (ycount + 1) <= u32::MAX,
    ensures
        index@.len() == 4 * (ycount * xcount),
        forall|ix: int, iy: int, corner: int|
            0 <= ix < xcount && 0 <= iy < ycount && 0 <= corner < 4
                ==> #[trigger] index@[quad_position(xcount as int, ix, iy, corner)]
                == quad_corner(xcount as int, ix, iy, corner),
{
    proof {
        assert(0 * xcount == 0) by (nonlinear_arith);
        assert(xcount + 1 <= (xcount + 1) * (ycount + 1)) by (nonlinear_arith)
            requires
                0 <= xcount,
                0 <= ycount,
        ;
    }
    let xwidth: usize = xcount + 1;
    let mut index: Vec<u32> = Vec::new();
    let mut iy: usize = 0;
    while iy < ycount
        invariant
            iy <= ycount,
            xwidth == xcount + 1,
            (xcount + 1) * (ycount + 1) <= u32::MAX,
            index@.len() == 4 * (iy * xcount),
            quads_before(index@, xcount as int, 0, iy as int),
        decreases ycount - iy,
    {
        let mut ix: usize = 0;
        while ix < xcount
            invariant
                iy < ycount,
                ix <= xcount,
                xwidth == xcount + 1,
                (xcount + 1) * (ycount + 1) <= u32::MAX,
                index@.len() == 4 * (iy * xcount + ix),
                quads_before(index@, xcount as int, ix as int, iy as int),
            decreases xcount - ix,
        {
            proof {
                lemma_quad_corner_bound(xcount as int, ycount as int, ix as int, iy as int, 0);
                lemma_quad_corner_bound(xcount as int, ycount as int, ix as int, iy as int, 1);
                lemma_quad_corner_bound(xcount as int, ycount as int, ix as int, iy as int, 2);
                lemma_quad_corner_bound(xcount as int, ycount as int, ix as int, iy as int, 3);
                assert(0 <= iy * xcount) by (nonlinear_arith);
                assert((iy + 1) * xwidth == iy * xwidth + xwidth && 0 <= iy * xwidth)
                    by (nonlinear_arith)
                    requires
                        0 <= iy,
                        0 <= xwidth,
                ;
            }
            let ghost before = index@;
            index.push((ix + iy * xwidth) as u32);
            index.push(((ix + 1) + iy * xwidth) as u32);
            index.push(((ix + 1) + (iy + 1) * xwidth) as u32);
            index.push((ix + (iy + 1) * xwidth) as u32);
            proof {
                let x = xcount as int;
                assert forall|jx: int, jy: int, corner: int|
                    0 <= jx < x && 0 <= jy && (jy < iy || (jy == iy && jx < ix + 1)) && 0
                        <= corner < 4 implies #[trigger] index@[quad_position(x, jx, jy, corner)]
                    == quad_corner(x, jx, jy, corner) by {
                    if jy == iy && jx == ix {
                    } else {
                        lemma_quad_position(x, jx, jy, ix as int, iy as int);
                        assert(index@[quad_position(x, jx, jy, corner)] == before[quad_position(
                            x,
                            jx,
                            jy,
                            corner,
                        )]);
                    }
                }
            }
            ix += 1;
        }
        proof {
            assert forall|jx: int, jy: int, corner: int|
                0 <= jx < xcount && 0 <= jy && (jy < iy + 1 || (jy == iy + 1 && jx < 0)) && 0
                    <= corner < 4 implies #[trigger] index@[quad_position(
                xcount as int,
                jx,
                jy,
                corner,
            )] == quad_corner(xcount as int, jx, jy, corner) by {
                assert(jy < iy || (jy == iy && jx < xcount));
            }
            assert((iy + 1) * xcount == iy * xcount + xcount) by (nonlinear_arith);
        }
        iy += 1;
    }
    index
}

} // verus!
