//! What holds of every atlas, stated over the specification functions that
//! the contracts of the atlas use.

use crate::atlas::{
    coordinate, flat_rects, grid_columns, grid_rows, is_grid, is_grid_cell, TextureAtlas,
};
use crate::geometry::{IVec2, Rect};
use crate::grid::{
    lemma_cell_inside, lemma_cells_apart, lemma_row_major, lemma_row_major_bounds,
    lemma_row_major_order,
};
use crate::handle::TextureHandle;
use crate::padding::PaddingSpecification;
use vstd::prelude::*;

verus! {

/// A grid holds one rectangle for each pair of a row and a column, and each
/// rectangle measures exactly one tile.
pub proof fn lemma_grid_count_and_cell_size(
    rects: Seq<Rect>,
    tile_size: IVec2,
    texture_dimensions: IVec2,
    padding: PaddingSpecification,
    k: int,
)
    requires
        is_grid(rects, tile_size, texture_dimensions, padding),
        0 <= k < rects.len(),
    ensures
        rects.len() == grid_rows(tile_size, texture_dimensions, padding) * grid_columns(
            tile_size,
            texture_dimensions,
            padding,
        ),
        rects[k].max().x - rects[k].min().x == tile_size.x,
        rects[k].max().y - rects[k].min().y == tile_size.y,
{
}

/// A grid is listed row by row: the rectangle at position `k` is the cell in
/// row `k / columns` and column `k % columns`, and both are inside the grid.
pub proof fn lemma_grid_position_to_cell(
    rects: Seq<Rect>,
    tile_size: IVec2,
    texture_dimensions: IVec2,
    padding: PaddingSpecification,
    k: int,
)
    requires
        is_grid(rects, tile_size, texture_dimensions, padding),
        0 <= k < rects.len(),
    ensures
        ({
            let columns = grid_columns(tile_size, texture_dimensions, padding);
            let rows = grid_rows(tile_size, texture_dimensions, padding);
            &&& 0 <= k / columns < rows
            &&& 0 <= k % columns < columns
            &&& is_grid_cell(rects[k], tile_size, padding, k % columns, k / columns)
        }),
{
    let columns = grid_columns(tile_size, texture_dimensions, padding);
    let rows = grid_rows(tile_size, texture_dimensions, padding);
    lemma_row_major_bounds(rows, columns, k);
}

/// The other way round: the cell in row `row` and column `column` stands at
/// position `row * columns + column`, so a whole row comes before the next
/// one and a row runs from its first column to its last.
pub proof fn lemma_grid_cell_to_position(
    rects: Seq<Rect>,
    tile_size: IVec2,
    texture_dimensions: IVec2,
    padding: PaddingSpecification,
    row: int,
    column: int,
)
    requires
        is_grid(rects, tile_size, texture_dimensions, padding),
        0 <= row < grid_rows(tile_size, texture_dimensions, padding),
        0 <= column < grid_columns(tile_size, texture_dimensions, padding),
    ensures
        ({
            let columns = grid_columns(tile_size, texture_dimensions, padding);
            &&& 0 <= row * columns + column < rects.len()
            &&& is_grid_cell(rects[row * columns + column], tile_size, padding, column, row)
        }),
{
    let columns = grid_columns(tile_size, texture_dimensions, padding);
    let rows = grid_rows(tile_size, texture_dimensions, padding);
    lemma_row_major(columns, row, column);
    assert(0 <= row * columns && row * columns + columns <= rows * columns) by (nonlinear_arith)
        requires
            0 <= row < rows,
            0 < columns,
    ;
}

/// With a tile of at least one pixel each way and no negative margin, every
/// rectangle of a grid lies inside the texture, margins included, and its
/// minimum corner comes before its maximum corner.
pub proof fn lemma_grid_cells_inside_texture(
    rects: Seq<Rect>,
    tile_size: IVec2,
    texture_dimensions: IVec2,
    padding: PaddingSpecification,
    k: int,
)
    requires
        tile_size.x > 0,
        tile_size.y > 0,
        padding.is_valid(),
        is_grid(rects, tile_size, texture_dimensions, padding),
        0 <= k < rects.len(),
    ensures
        padding.left <= rects[k].min().x < rects[k].max().x <= texture_dimensions.x
            - padding.right,
        padding.top <= rects[k].min().y < rects[k].max().y <= texture_dimensions.y
            - padding.bottom,
{
    let columns = grid_columns(tile_size, texture_dimensions, padding);
    let rows = grid_rows(tile_size, texture_dimensions, padding);
    lemma_row_major_bounds(rows, columns, k);
    lemma_cell_inside(
        texture_dimensions.x as int,
        tile_size.x as int,
        padding.left as int,
        padding.right as int,
        k % columns,
    );
    lemma_cell_inside(
        texture_dimensions.y as int,
        tile_size.y as int,
        padding.top as int,
        padding.bottom as int,
        k / columns,
    );
}

/// With a tile of at least one pixel each way and no negative margin, no two
/// rectangles of a grid overlap: the later one lies to the right of the
/// earlier one, or below it.
pub proof fn lemma_grid_cells_disjoint(
    rects: Seq<Rect>,
    tile_size: IVec2,
    texture_dimensions: IVec2,
    padding: PaddingSpecification,
    j: int,
    k: int,
)
    requires
        tile_size.x > 0,
        tile_size.y > 0,
        padding.is_valid(),
        is_grid(rects, tile_size, texture_dimensions, padding),
        0 <= j < k < rects.len(),
    ensures
        rects[j].max().x <= rects[k].min().x || rects[j].max().y <= rects[k].min().y,
{
    let columns = grid_columns(tile_size, texture_dimensions, padding);
    let rows = grid_rows(tile_size, texture_dimensions, padding);
    lemma_row_major_bounds(rows, columns, k);
    lemma_row_major_order(columns, j, k);
    if j / columns < k / columns {
        lemma_cells_apart(
            tile_size.y as int,
            padding.top as int,
            padding.bottom as int,
            j / columns,
            k / columns,
        );
    } else {
        lemma_cells_apart(
            tile_size.x as int,
            padding.left as int,
            padding.right as int,
            j % columns,
            k % columns,
        );
    }
}

/// Slicing is a function of its arguments: two listings of the same grid are
/// the same sequence of rectangles.
pub proof fn lemma_grid_is_unique(
    first: Seq<Rect>,
    second: Seq<Rect>,
    tile_size: IVec2,
    texture_dimensions: IVec2,
    padding: PaddingSpecification,
)
    requires
        is_grid(first, tile_size, texture_dimensions, padding),
        is_grid(second, tile_size, texture_dimensions, padding),
    ensures
        first == second,
{
    assert forall|k: int| 0 <= k < first.len() implies first[k] == second[k] by {
        Rect::lemma_equal_by_corners(first[k], second[k]);
    }
    assert(first =~= second);
}

/// A texture that is not wide enough, or not high enough, for one tile with
/// its margins gives a grid without rectangles.
pub proof fn lemma_grid_of_small_texture_is_empty(
    rects: Seq<Rect>,
    tile_size: IVec2,
    texture_dimensions: IVec2,
    padding: PaddingSpecification,
)
    requires
        tile_size.x > 0,
        tile_size.y > 0,
        padding.is_valid(),
        is_grid(rects, tile_size, texture_dimensions, padding),
        texture_dimensions.x < tile_size.x + padding.horizontal() || texture_dimensions.y
            < tile_size.y + padding.vertical(),
    ensures
        rects.len() == 0,
{
    let stride_x = tile_size.x + padding.horizontal();
    let stride_y = tile_size.y + padding.vertical();
    let width = texture_dimensions.x as int;
    let height = texture_dimensions.y as int;
    assert(width < stride_x ==> width / stride_x <= 0) by (nonlinear_arith)
        requires
            stride_x > 0,
    ;
    assert(height < stride_y ==> height / stride_y <= 0) by (nonlinear_arith)
        requires
            stride_y > 0,
    ;
    let columns = grid_columns(tile_size, texture_dimensions, padding);
    let rows = grid_rows(tile_size, texture_dimensions, padding);
    assert(rows * columns == 0) by (nonlinear_arith)
        requires
            rows == 0 || columns == 0,
    ;
}

/// An atlas that was sliced from a grid has no table of handles, so no
/// handle is found in it.
pub proof fn lemma_grid_atlas_finds_no_handle(
    atlas: TextureAtlas,
    texture: TextureHandle,
    tile_size: IVec2,
    texture_dimensions: IVec2,
    padding: PaddingSpecification,
    wanted: TextureHandle,
)
    requires
        atlas.is_grid_of(texture, tile_size, texture_dimensions, padding),
    ensures
        atlas.index_of(wanted) is None,
{
}

/// Appending a rectangle to `before` gives `after`: the new rectangle stands
/// at the old length, the length grows by one, and every rectangle that was
/// there keeps its index.
pub proof fn lemma_append_keeps_indices(before: TextureAtlas, after: TextureAtlas, rect: Rect)
    requires
        after.textures@ == before.textures@.push(rect),
    ensures
        after.textures@[before.len() as int] == rect,
        after.len() == before.len() + 1,
        forall|i: int| 0 <= i < before.len() ==> after.textures@[i] == before.textures@[i],
{
}

/// The buffer mirrors the list: an appended rectangle adds its four numbers
/// at the end and moves none of the numbers that were there.
pub proof fn lemma_append_extends_buffer(rects: Seq<Rect>, rect: Rect)
    ensures
        flat_rects(rects.push(rect)).len() == flat_rects(rects).len() + 4,
        flat_rects(rects.push(rect)).take(4 * (rects.len() as int)) == flat_rects(rects),
        forall|slot: int|
            0 <= slot < 4 ==> flat_rects(rects.push(rect))[4 * rects.len() + slot] == coordinate(
                rect,
                slot,
            ),
{
    assert(flat_rects(rects.push(rect)).take(4 * (rects.len() as int)) =~= flat_rects(rects));
}

/// The two queries on the number of rectangles depend on nothing but the
/// rectangles: asked twice of one atlas they answer alike, and they agree
/// with each other.
pub proof fn lemma_queries_are_stable(
    atlas: TextureAtlas,
    first_len: usize,
    second_len: usize,
    first_empty: bool,
    second_empty: bool,
)
    requires
        first_len == atlas.len(),
        second_len == atlas.len(),
        first_empty == atlas.is_empty(),
        second_empty == atlas.is_empty(),
    ensures
        first_len == second_len,
        first_empty == second_empty,
        first_empty <==> first_len == 0,
{
}

} // verus!
