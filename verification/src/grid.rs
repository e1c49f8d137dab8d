//! Byte grids.
//!
//! Frames, textures and surfaces are grids of cells of a fixed number of
//! bytes, stored row after row. The lemmas here say where a cell lies in
//! such a grid and what stacking equal pieces gives.

use vstd::prelude::*;

verus! {

/// `count` pieces laid end to end, piece 0 first.
pub open spec fn stack(count: nat, piece: spec_fn(int) -> Seq<u8>) -> Seq<u8>
    decreases count,
{
    if count == 0 {
        Seq::empty()
    } else {
        stack((count - 1) as nat, piece) + piece(count - 1)
    }
}

/// One more piece goes on top of the stack.
pub proof fn lemma_stack_step(count: nat, piece: spec_fn(int) -> Seq<u8>)
    ensures
        stack(count + 1, piece) == stack(count, piece) + piece(count as int),
{
    assert((count + 1 - 1) as nat == count);
}

/// Pieces of one size stack up to a grid: byte `k` of piece `i` is at
/// `i * size + k`.
pub proof fn lemma_stack(count: nat, piece: spec_fn(int) -> Seq<u8>, size: nat)
    requires
        forall|j: int| 0 <= j < count ==> (#[trigger] piece(j)).len() == size,
    ensures
        stack(count, piece).len() == count * size,
        forall|i: int, k: int|
            0 <= i < count && 0 <= k < size ==> #[trigger] stack(count, piece)[i * size + k]
                == piece(i)[k],
    decreases count,
{
    if count == 0 {
        assert(count * size == 0) by (nonlinear_arith)
            requires
                count == 0,
        ;
    } else {
        let below = (count - 1) as nat;
        lemma_stack(below, piece, size);
        assert(count * size == below * size + size) by (nonlinear_arith)
            requires
                count == below + 1,
        ;
        assert(piece(below as int).len() == size);
        assert(stack(count, piece) == stack(below, piece) + piece(below as int));
        assert forall|i: int, k: int| 0 <= i < count && 0 <= k < size implies #[trigger] stack(
            count,
            piece,
        )[i * size + k] == piece(i)[k] by {
            if i < below {
                assert(i * size + k < below * size) by (nonlinear_arith)
                    requires
                        0 <= i < below,
                        0 <= k < size,
                ;
                assert(stack(below, piece)[i * size + k] == piece(i)[k]);
            } else {
                assert(i * size == below * size);
            }
        }
    }
}

/// A cell of a grid lies inside the grid: with `depth` bytes per cell, the
/// cell in row `row`, column `col` ends where the grid ends or before.
pub proof fn lemma_cell_in_grid(width: int, height: int, depth: int, row: int, col: int)
    requires
        0 <= row < height,
        0 <= col < width,
        depth >= 0,
    ensures
        0 <= row * width + col < width * height,
        0 <= (row * width + col) * depth,
        (row * width + col) * depth + depth <= width * height * depth,
        (row * width + col) * depth == row * (width * depth) + col * depth,
{
    assert(0 <= row * width && row * width + width <= width * height) by (nonlinear_arith)
        requires
            0 <= row < height,
            0 < width,
    ;
    let cell = row * width + col;
    assert(0 <= cell * depth && cell * depth + depth <= width * height * depth)
        by (nonlinear_arith)
        requires
            0 <= cell < width * height,
            depth >= 0,
    ;
    assert((row * width + col) * depth == row * (width * depth) + col * depth)
        by (nonlinear_arith);
}

} // verus!
