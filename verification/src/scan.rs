//! Row-major scan order: how a linear pixel index corresponds to a coordinate.

use vstd::prelude::*;

verus! {

/// The column of the `i`-th pixel of an image `width` pixels wide.
pub open spec fn column_of(i: int, width: int) -> int {
    i % width
}

/// The row of the `i`-th pixel of an image `width` pixels wide.
pub open spec fn row_of(i: int, width: int) -> int {
    i / width
}

/// The scan index of the pixel in column `x` of row `y`.
pub open spec fn index_of(x: int, y: int, width: int) -> int {
    y * width + x
}

/// An index below `width * height` falls on a coordinate inside the image, and that
/// coordinate leads back to the index.
pub proof fn lemma_index_to_coordinate(i: int, width: int, height: int)
    requires
        width > 0,
        0 <= i < width * height,
    ensures
        0 <= column_of(i, width) < width,
        0 <= row_of(i, width) < height,
        index_of(column_of(i, width), row_of(i, width), width) == i,
{
    assert(0 <= i % width < width && 0 <= i / width && (i / width) * width + i % width == i)
        by (nonlinear_arith)
        requires
            width > 0,
            0 <= i,
    ;
    assert(i / width < height) by (nonlinear_arith)
        requires
            width > 0,
            0 <= i < width * height,
            (i / width) * width <= i,
    ;
}

/// A coordinate inside the image has an index below `width * height`, and that index
/// leads back to the coordinate.
pub proof fn lemma_coordinate_to_index(x: int, y: int, width: int, height: int)
    requires
        0 <= x < width,
        0 <= y < height,
    ensures
        0 <= index_of(x, y, width) < width * height,
        column_of(index_of(x, y, width), width) == x,
        row_of(index_of(x, y, width), width) == y,
{
    assert(0 <= y * width + x < width * height) by (nonlinear_arith)
        requires
            0 <= x < width,
            0 <= y < height,
    ;
    vstd::arithmetic::div_mod::lemma_fundamental_div_mod_converse(y * width + x, width, y, x);
}

/// Scanning the indices `0 .. width * height` visits every coordinate of the image exactly
/// once: index and coordinate determine each other.
pub proof fn lemma_scan_is_bijection(width: int, height: int)
    requires
        width > 0,
        height > 0,
    ensures
        forall|i: int|
            0 <= i < width * height ==> {
                &&& 0 <= #[trigger] column_of(i, width) < width
                &&& 0 <= #[trigger] row_of(i, width) < height
                &&& index_of(column_of(i, width), row_of(i, width), width) == i
            },
        forall|x: int, y: int|
            0 <= x < width && 0 <= y < height ==> {
                &&& 0 <= #[trigger] index_of(x, y, width) < width * height
                &&& column_of(index_of(x, y, width), width) == x
                &&& row_of(index_of(x, y, width), width) == y
            },
        forall|i: int, j: int|
            0 <= i < width * height && 0 <= j < width * height && #[trigger] column_of(i, width)
                == #[trigger] column_of(j, width) && row_of(i, width) == row_of(j, width) ==> i
                == j,
{
    assert forall|i: int| 0 <= i < width * height implies {
        &&& 0 <= #[trigger] column_of(i, width) < width
        &&& 0 <= #[trigger] row_of(i, width) < height
        &&& index_of(column_of(i, width), row_of(i, width), width) == i
    } by {
        lemma_index_to_coordinate(i, width, height);
    }
    assert forall|x: int, y: int| 0 <= x < width && 0 <= y < height implies {
        &&& 0 <= #[trigger] index_of(x, y, width) < width * height
        &&& column_of(index_of(x, y, width), width) == x
        &&& row_of(index_of(x, y, width), width) == y
    } by {
        lemma_coordinate_to_index(x, y, width, height);
    }
    assert forall|i: int, j: int|
        0 <= i < width * height && 0 <= j < width * height && #[trigger] column_of(i, width)
            == #[trigger] column_of(j, width) && row_of(i, width) == row_of(j, width) implies i
        == j by {
        lemma_index_to_coordinate(i, width, height);
        lemma_index_to_coordinate(j, width, height);
    }
}

} // verus!
