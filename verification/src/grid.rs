//! The arithmetic of slicing one axis of a texture into equal cells.
//!
//! A cell of `tile` pixels is preceded by `leading` and followed by
//! `trailing` pixels of padding, so one stride is `tile + leading + trailing`
//! pixels long and as many cells fit as whole strides do.

use vstd::prelude::*;

verus! {

/// Pixels from the start of one cell's leading margin to the start of the next.
pub open spec fn stride(tile: int, leading: int, trailing: int) -> int {
    tile + leading + trailing
}

/// How many whole strides fit into `extent` pixels: the floor of the quotient,
/// and none where that is not positive.
pub open spec fn cells_along(extent: int, stride: int) -> int
    recommends
        stride > 0,
{
    if extent / stride > 0 {
        extent / stride
    } else {
        0
    }
}

/// Where cell number `index` begins: after `index` whole strides and its own
/// leading margin.
pub open spec fn cell_origin(tile: int, leading: int, trailing: int, index: int) -> int {
    stride(tile, leading, trailing) * index + leading
}

/// An extent that is not positive holds no cell; a positive one holds the
/// floor of the quotient, which is at most the extent itself.
pub proof fn lemma_cells_along_bounds(extent: int, stride: int)
    requires
        stride > 0,
    ensures
        extent <= 0 ==> cells_along(extent, stride) == 0,
        extent > 0 ==> cells_along(extent, stride) == extent / stride,
        0 <= cells_along(extent, stride),
        extent > 0 ==> cells_along(extent, stride) <= extent,
        cells_along(extent, stride) * stride <= extent || cells_along(extent, stride) == 0,
{
    assert(extent <= 0 ==> extent / stride <= 0) by (nonlinear_arith)
        requires
            stride > 0,
    ;
    assert(extent > 0 ==> 0 <= extent / stride <= extent && (extent / stride) * stride <= extent)
        by (nonlinear_arith)
        requires
            stride > 0,
    ;
}

/// Every cell of an axis lies inside the extent that was sliced: it begins
/// at or after pixel 0 and its trailing margin ends at or before `extent`.
pub proof fn lemma_cell_inside(
    extent: int,
    tile: int,
    leading: int,
    trailing: int,
    index: int,
)
    requires
        tile > 0,
        leading >= 0,
        trailing >= 0,
        0 <= index < cells_along(extent, stride(tile, leading, trailing)),
    ensures
        0 <= leading <= cell_origin(tile, leading, trailing, index),
        cell_origin(tile, leading, trailing, index) + tile + trailing <= extent,
{
    let s = stride(tile, leading, trailing);
    let n = cells_along(extent, s);
    lemma_cells_along_bounds(extent, s);
    assert(0 <= s * index && s * index + s <= n * s) by (nonlinear_arith)
        requires
            s > 0,
            0 <= index < n,
    ;
}

/// Cells follow one another without overlap: a later cell begins only after
/// an earlier one, with its trailing margin, has ended.
pub proof fn lemma_cells_apart(tile: int, leading: int, trailing: int, earlier: int, later: int)
    requires
        tile > 0,
        leading >= 0,
        trailing >= 0,
        earlier < later,
    ensures
        cell_origin(tile, leading, trailing, earlier) + tile + trailing + leading <= cell_origin(
            tile,
            leading,
            trailing,
            later,
        ),
{
    let s = stride(tile, leading, trailing);
    assert(s * earlier + s <= s * later) by (nonlinear_arith)
        requires
            s > 0,
            earlier < later,
    ;
}

/// Position `row * columns + column` of a row-major listing splits back into
/// its row and its column.
pub proof fn lemma_row_major(columns: int, row: int, column: int)
    requires
        0 <= column < columns,
    ensures
        (row * columns + column) / columns == row,
        (row * columns + column) % columns == column,
{
    vstd::arithmetic::div_mod::lemma_fundamental_div_mod_converse(
        row * columns + column,
        columns,
        row,
        column,
    );
}

/// Of two positions in a row-major listing, the earlier one is in an earlier
/// row, or in the same row and an earlier column.
pub proof fn lemma_row_major_order(columns: int, j: int, k: int)
    requires
        columns > 0,
        0 <= j < k,
    ensures
        j / columns < k / columns || (j / columns == k / columns && j % columns < k % columns),
{
    vstd::arithmetic::div_mod::lemma_fundamental_div_mod(j, columns);
    vstd::arithmetic::div_mod::lemma_fundamental_div_mod(k, columns);
    vstd::arithmetic::div_mod::lemma_div_is_ordered(j, k, columns);
}

/// A position below `rows * columns` names a row below `rows` and a column
/// below `columns`.
pub proof fn lemma_row_major_bounds(rows: int, columns: int, k: int)
    requires
        0 <= k < rows * columns,
        0 <= rows,
        0 <= columns,
    ensures
        columns > 0,
        0 <= k / columns < rows,
        0 <= k % columns < columns,
{
    assert(columns > 0) by (nonlinear_arith)
        requires
            0 <= k < rows * columns,
            0 <= columns,
    ;
    assert(0 <= k / columns < rows && 0 <= k % columns < columns) by (nonlinear_arith)
        requires
            0 <= k < rows * columns,
            columns > 0,
    ;
}

} // verus!
