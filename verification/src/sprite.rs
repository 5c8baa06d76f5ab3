//! What a draw call says of one sprite: which rectangle of the atlas to
//! sample and which color to multiply it with.

use vstd::prelude::*;

verus! {

/// An sRGB color with alpha, eight bits to the channel.
#[derive(Clone, Copy, Debug, PartialEq, Eq, Structural)]
pub struct Color {
    pub red: u8,
    pub green: u8,
    pub blue: u8,
    pub alpha: u8,
}

impl Color {
    /// Fully opaque white, the tint that leaves a texture as it is.
    pub open spec fn spec_white() -> Color {
        Color { red: 255, green: 255, blue: 255, alpha: 255 }
    }

    /// Fully opaque white, the tint that leaves a texture as it is.
    #[verifier::when_used_as_spec(spec_white)]
    pub fn white() -> (color: Color)
        ensures
            color == Self::spec_white(),
    {
        Color { red: 255, green: 255, blue: 255, alpha: 255 }
    }
}

/// One sprite of an atlas as it is drawn.
#[derive(Clone, Copy, Debug, PartialEq, Eq, Structural)]
pub struct TextureAtlasSprite {
    /// The tint that the sprite is multiplied with.
    pub color: Color,
    /// The position of the sprite's rectangle in the atlas.
    pub index: u32,
}

impl Default for TextureAtlasSprite {
    /// The first sprite of an atlas, untinted.
    fn default() -> (sprite: TextureAtlasSprite)
        ensures
            sprite.index == 0,
            sprite.color == Color::white(),
    {
        TextureAtlasSprite { index: 0, color: Color::white() }
    }
}

impl TextureAtlasSprite {
    /// The sprite at `index`, untinted.
    pub fn new(index: u32) -> (sprite: TextureAtlasSprite)
        ensures
            sprite.index == index,
            sprite.color == Color::white(),
    {
        TextureAtlasSprite { index, ..Default::default() }
    }
}

} // verus!
