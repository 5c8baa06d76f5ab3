//! The atlas: a texture, the rectangles that cut it into sprites, and an
//! optional table from texture handles to positions among the rectangles.

use crate::geometry::{IVec2, Rect};
use crate::grid::{
    cell_origin, cells_along, lemma_cell_inside, lemma_cells_along_bounds, lemma_row_major,
    stride,
};
use crate::handle::{index_get, TextureHandle};
use crate::padding::PaddingSpecification;
use bevy_utils::HashMap;
use vstd::prelude::*;

verus! {

/// Why a grid could not be sliced.
#[derive(Clone, Copy, Debug, PartialEq, Eq, Structural)]
pub enum AtlasError {
    /// A tile must be at least one pixel wide and one pixel high.
    InvalidTileSize,
    /// A margin of the padding is negative.
    InvalidPadding,
}

/// An atlas containing multiple textures (like a spritesheet or a tilemap).
///
/// The position of a rectangle in `textures` is the sprite index that draw
/// calls refer to. The functions of the atlas only ever append to the list,
/// so an index that was handed out stays valid.
#[derive(Debug)]
pub struct TextureAtlas {
    /// The handle to the texture in which the sprites are stored.
    pub texture: TextureHandle,
    /// The size of that texture in pixels.
    pub size: IVec2,
    /// The specific areas of the atlas where each texture can be found.
    pub textures: Vec<Rect>,
    /// For an atlas assembled from separate textures: where each of them
    /// went, by handle id. A sliced grid has none.
    pub texture_handles: Option<HashMap<u64, usize>>,
}

/// Columns of the grid: whole horizontal strides across the texture's width.
pub open spec fn grid_columns(
    tile_size: IVec2,
    texture_dimensions: IVec2,
    padding: PaddingSpecification,
) -> int {
    cells_along(
        texture_dimensions.x as int,
        stride(tile_size.x as int, padding.left as int, padding.right as int),
    )
}

/// Rows of the grid: whole vertical strides down the texture's height.
pub open spec fn grid_rows(
    tile_size: IVec2,
    texture_dimensions: IVec2,
    padding: PaddingSpecification,
) -> int {
    cells_along(
        texture_dimensions.y as int,
        stride(tile_size.y as int, padding.top as int, padding.bottom as int),
    )
}

/// Whether `rect` is the cell in column `column` of row `row`: it begins
/// after that many strides and the leading margin on each axis, and measures
/// exactly one tile.
pub open spec fn is_grid_cell(
    rect: Rect,
    tile_size: IVec2,
    padding: PaddingSpecification,
    column: int,
    row: int,
) -> bool {
    &&& rect.min().x == cell_origin(
        tile_size.x as int,
        padding.left as int,
        padding.right as int,
        column,
    )
    &&& rect.min().y == cell_origin(
        tile_size.y as int,
        padding.top as int,
        padding.bottom as int,
        row,
    )
    &&& rect.max().x == rect.min().x + tile_size.x
    &&& rect.max().y == rect.min().y + tile_size.y
}

/// Whether `rects` lists the cells of the grid row by row, each row from
/// left to right: position `k` holds column `k % columns` of row
/// `k / columns`.
pub open spec fn is_grid(
    rects: Seq<Rect>,
    tile_size: IVec2,
    texture_dimensions: IVec2,
    padding: PaddingSpecification,
) -> bool {
    let columns = grid_columns(tile_size, texture_dimensions, padding);
    let rows = grid_rows(tile_size, texture_dimensions, padding);
    &&& rects.len() == rows * columns
    &&& forall|k: int|
        0 <= k < rects.len() ==> is_grid_cell(
            #[trigger] rects[k],
            tile_size,
            padding,
            k % columns,
            k / columns,
        )
}

/// One of the four numbers of a rectangle as it goes into a buffer: slot 0
/// and 1 are the minimum corner's x and y, slot 2 and 3 the maximum corner's.
pub open spec fn coordinate(rect: Rect, slot: int) -> i32 {
    if slot == 0 {
        rect.min().x
    } else if slot == 1 {
        rect.min().y
    } else if slot == 2 {
        rect.max().x
    } else {
        rect.max().y
    }
}

/// The rectangles laid end to end, four numbers each and nothing between
/// them: number `i` is slot `i % 4` of rectangle `i / 4`.
pub open spec fn flat_rects(rects: Seq<Rect>) -> Seq<i32> {
    Seq::new(4 * rects.len(), |i: int| coordinate(rects[i / 4], i % 4))
}

/// How many whole strides of `stride` pixels fit into `extent` pixels.
fn whole_strides(extent: i32, stride: i64) -> (count: i64)
    requires
        stride > 0,
    ensures
        count == cells_along(extent as int, stride as int),
        0 <= count <= i32::MAX,
{
    proof {
        lemma_cells_along_bounds(extent as int, stride as int);
    }
    if extent <= 0 {
        0
    } else {
        extent as i64 / stride
    }
}

impl TextureAtlas {
    /// The position stored for `texture`, if the atlas has a table and the
    /// table has the handle.
    pub open spec fn index_of(&self, texture: TextureHandle) -> Option<usize> {
        match self.texture_handles {
            Some(index) => if index@.contains_key(texture.id) {
                Some(index@[texture.id])
            } else {
                None
            },
            None => None,
        }
    }

    /// Whether this atlas is what slicing `texture` into a grid gives.
    pub open spec fn is_grid_of(
        &self,
        texture: TextureHandle,
        tile_size: IVec2,
        texture_dimensions: IVec2,
        padding: PaddingSpecification,
    ) -> bool {
        &&& self.texture == texture
        &&& self.size == texture_dimensions
        &&& self.texture_handles is None
        &&& is_grid(self.textures@, tile_size, texture_dimensions, padding)
    }

    /// Create a new `TextureAtlas` that has a texture, but does not have
    /// any individual sprites specified.
    pub fn new_empty(texture: TextureHandle, dimensions: IVec2) -> (atlas: TextureAtlas)
        ensures
            atlas.texture == texture,
            atlas.size == dimensions,
            atlas.textures@ == Seq::<Rect>::empty(),
            atlas.texture_handles is None,
    {
        TextureAtlas { texture, size: dimensions, texture_handles: None, textures: Vec::new() }
    }

    /// Generate a `TextureAtlas` by splitting a texture into a grid where each
    /// cell of the grid of `tile_size` is one of the textures in the atlas.
    pub fn from_grid(
        texture: TextureHandle,
        tile_size: IVec2,
        texture_dimensions: IVec2,
    ) -> (sliced: Result<TextureAtlas, AtlasError>)
        ensures
            match sliced {
                Ok(atlas) => tile_size.x > 0 && tile_size.y > 0 && atlas.is_grid_of(
                    texture,
                    tile_size,
                    texture_dimensions,
                    PaddingSpecification::zero(),
                ),
                Err(error) => error == AtlasError::InvalidTileSize && (tile_size.x <= 0
                    || tile_size.y <= 0),
            },
    {
        Self::from_grid_with_padding(
            texture,
            tile_size,
            texture_dimensions,
            PaddingSpecification::default(),
        )
    }

    /// Generate a `TextureAtlas` by splitting a texture into a grid where each
    /// cell of the grid of `tile_size` is one of the textures in the atlas and is separated by
    /// some `padding` in the texture.
    ///
    /// The cells are listed row by row from the top, each row from left to
    /// right. A texture too small for one cell gives an atlas without
    /// sprites. A tile without width or height is refused, and so is a
    /// negative margin.
    pub fn from_grid_with_padding(
        texture: TextureHandle,
        tile_size: IVec2,
        texture_dimensions: IVec2,
        padding: PaddingSpecification,
    ) -> (sliced: Result<TextureAtlas, AtlasError>)
        ensures
            match sliced {
                Ok(atlas) => tile_size.x > 0 && tile_size.y > 0 && padding.is_valid()
                    && atlas.is_grid_of(texture, tile_size, texture_dimensions, padding),
                Err(AtlasError::InvalidTileSize) => tile_size.x <= 0 || tile_size.y <= 0,
                Err(AtlasError::InvalidPadding) => tile_size.x > 0 && tile_size.y > 0
                    && !padding.is_valid(),
            },
    {
        if tile_size.x <= 0 || tile_size.y <= 0 {
            return Err(AtlasError::InvalidTileSize);
        }
        if padding.left < 0 || padding.top < 0 || padding.right < 0 || padding.bottom < 0 {
            return Err(AtlasError::InvalidPadding);
        }
        let stride_x: i64 = tile_size.x as i64 + padding.left as i64 + padding.right as i64;
        let stride_y: i64 = tile_size.y as i64 + padding.top as i64 + padding.bottom as i64;
        let columns: i64 = whole_strides(texture_dimensions.x, stride_x);
        let rows: i64 = whole_strides(texture_dimensions.y, stride_y);

        let mut sprites: Vec<Rect> = Vec::new();
        let mut row: i64 = 0;
        while row < rows
            invariant
                tile_size.x > 0,
                tile_size.y > 0,
                padding.is_valid(),
                stride_x == stride(tile_size.x as int, padding.left as int, padding.right as int),
                stride_y == stride(tile_size.y as int, padding.top as int, padding.bottom as int),
                columns == grid_columns(tile_size, texture_dimensions, padding),
                rows == grid_rows(tile_size, texture_dimensions, padding),
                0 <= columns,
                0 <= row <= rows,
                sprites@.len() == row * columns,
                forall|k: int|
                    0 <= k < sprites@.len() ==> is_grid_cell(
                        #[trigger] sprites@[k],
                        tile_size,
                        padding,
                        k % (columns as int),
                        k / (columns as int),
                    ),
            decreases rows - row,
        {
            let mut column: i64 = 0;
            while column < columns
                invariant
                    tile_size.x > 0,
                    tile_size.y > 0,
                    padding.is_valid(),
                    stride_x == stride(
                        tile_size.x as int,
                        padding.left as int,
                        padding.right as int,
                    ),
                    stride_y == stride(
                        tile_size.y as int,
                        padding.top as int,
                        padding.bottom as int,
                    ),
                    columns == grid_columns(tile_size, texture_dimensions, padding),
                    rows == grid_rows(tile_size, texture_dimensions, padding),
                    0 <= row < rows,
                    0 <= column <= columns,
                    sprites@.len() == row * columns + column,
                    forall|k: int|
                        0 <= k < sprites@.len() ==> is_grid_cell(
                            #[trigger] sprites@[k],
                            tile_size,
                            padding,
                            k % (columns as int),
                            k / (columns as int),
                        ),
                decreases columns - column,
            {
                proof {
                    lemma_cell_inside(
                        texture_dimensions.x as int,
                        tile_size.x as int,
                        padding.left as int,
                        padding.right as int,
                        column as int,
                    );
                    lemma_cell_inside(
                        texture_dimensions.y as int,
                        tile_size.y as int,
                        padding.top as int,
                        padding.bottom as int,
                        row as int,
                    );
                    lemma_row_major(columns as int, row as int, column as int);
                }
                let min_x: i64 = stride_x * column + padding.left as i64;
                let min_y: i64 = stride_y * row + padding.top as i64;
                let rect_min = IVec2::new(min_x as i32, min_y as i32);
                let rect_max = IVec2::new(
                    (min_x + tile_size.x as i64) as i32,
                    (min_y + tile_size.y as i64) as i32,
                );
                let rect = Rect::new(rect_min, rect_max).unwrap();
                proof {
                    Rect::lemma_corners(rect_min, rect_max);
                }
                sprites.push(rect);
                column = column + 1;
            }
            proof {
                assert((row + 1) * columns == row * columns + columns) by (nonlinear_arith);
            }
            row = row + 1;
        }

        Ok(TextureAtlas { size: texture_dimensions, textures: sprites, texture, texture_handles: None })
    }

    /// Add a sprite to the list of textures in the `TextureAtlas`.
    ///
    /// The sprite takes the next free index. Nothing else changes, and no
    /// check is made for overlap with the sprites already there.
    pub fn add_texture(&mut self, rect: Rect)
        ensures
            final(self).textures@ == old(self).textures@.push(rect),
            final(self).textures@[old(self).textures@.len() as int] == rect,
            final(self).textures@.len() == old(self).textures@.len() + 1,
            final(self).texture == old(self).texture,
            final(self).size == old(self).size,
            final(self).texture_handles == old(self).texture_handles,
    {
        self.textures.push(rect);
    }

    pub open spec fn spec_len(&self) -> usize {
        self.textures.len()
    }

    pub open spec fn spec_is_empty(&self) -> bool {
        self.textures@.len() == 0
    }

    /// How many textures are in the `TextureAtlas`.
    #[verifier::when_used_as_spec(spec_len)]
    pub fn len(&self) -> (n: usize)
        ensures
            n == self.textures@.len(),
            n == self.spec_len(),
    {
        self.textures.len()
    }

    /// Whether the atlas has no texture at all.
    #[verifier::when_used_as_spec(spec_is_empty)]
    pub fn is_empty(&self) -> (empty: bool)
        ensures
            empty == (self.textures@.len() == 0),
            empty == self.spec_is_empty(),
    {
        self.textures.is_empty()
    }

    /// The rectangles as one flat buffer for upload, in index order and
    /// without gaps: four numbers to a rectangle, the minimum corner first.
    pub fn rect_buffer(&self) -> (buffer: Vec<i32>)
        ensures
            buffer@ == flat_rects(self.textures@),
    {
        let mut buffer: Vec<i32> = Vec::new();
        let mut k: usize = 0;
        while k < self.textures.len()
            invariant
                0 <= k <= self.textures@.len(),
                buffer@.len() == 4 * k,
                forall|i: int|
                    0 <= i < buffer@.len() ==> #[trigger] buffer@[i] == coordinate(
                        self.textures@[i / 4],
                        i % 4,
                    ),
            decreases self.textures@.len() - k,
        {
            let min = self.textures[k].min();
            let max = self.textures[k].max();
            buffer.push(min.x);
            buffer.push(min.y);
            buffer.push(max.x);
            buffer.push(max.y);
            k = k + 1;
        }
        assert(buffer@ =~= flat_rects(self.textures@));
        buffer
    }

    /// The scalar fields that go with the buffer: the width and the height
    /// of the texture.
    pub fn size_fields(&self) -> (fields: [i32; 2])
        ensures
            fields[0] == self.size.x,
            fields[1] == self.size.y,
    {
        [self.size.x, self.size.y]
    }

    /// The index of the sprite that was packed from `texture`, for an atlas
    /// that keeps a table of its source textures.
    pub fn get_texture_index(&self, texture: &TextureHandle) -> (found: Option<usize>)
        ensures
            found == self.index_of(*texture),
    {
        match &self.texture_handles {
            Some(index) => match index_get(index, &texture.id) {
                Some(position) => Some(*position),
                None => None,
            },
            None => None,
        }
    }
}

} // verus!
