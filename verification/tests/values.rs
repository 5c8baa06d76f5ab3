use texture_atlas::geometry::{IVec2, Rect};
use texture_atlas::handle::TextureHandle;
use texture_atlas::padding::PaddingSpecification;
use texture_atlas::sprite::{Color, TextureAtlasSprite};

#[test]
fn vector_keeps_its_components() {
    let v = IVec2::new(-3, 9);
    assert_eq!(v.x, -3);
    assert_eq!(v.y, 9);
    assert_eq!(v, IVec2 { x: -3, y: 9 });
}

#[test]
fn rect_keeps_its_corners() {
    let r = Rect::new(IVec2::new(-5, 2), IVec2::new(10, 40)).unwrap();
    assert_eq!(r.min(), IVec2::new(-5, 2));
    assert_eq!(r.max(), IVec2::new(10, 40));
}

#[test]
fn rect_may_be_a_point_or_a_line() {
    let point = Rect::new(IVec2::new(4, 4), IVec2::new(4, 4)).unwrap();
    assert_eq!(point.min(), point.max());
    let line = Rect::new(IVec2::new(0, 4), IVec2::new(9, 4)).unwrap();
    assert_eq!(line.max(), IVec2::new(9, 4));
    let whole = Rect::new(IVec2::new(i32::MIN, i32::MIN), IVec2::new(i32::MAX, i32::MAX));
    assert!(whole.is_some());
}

#[test]
fn rect_with_corners_out_of_order_is_refused() {
    assert_eq!(Rect::new(IVec2::new(1, 0), IVec2::new(0, 0)), None);
    assert_eq!(Rect::new(IVec2::new(0, 1), IVec2::new(0, 0)), None);
    assert_eq!(Rect::new(IVec2::new(5, 5), IVec2::new(4, 4)), None);
    assert_eq!(Rect::new(IVec2::new(0, 0), IVec2::new(10, -1)), None);
    assert_eq!(Rect::new(IVec2::new(0, 0), IVec2::new(-1, 10)), None);
}

#[test]
fn padding_new_stores_each_margin() {
    let padding = PaddingSpecification::new(1, 2, 3, 4);
    assert_eq!(padding.left, 1);
    assert_eq!(padding.top, 2);
    assert_eq!(padding.right, 3);
    assert_eq!(padding.bottom, 4);
    let negative = PaddingSpecification::new(-1, -2, -3, -4);
    assert_eq!(negative, PaddingSpecification { left: -1, top: -2, right: -3, bottom: -4 });
}

#[test]
fn padding_uniform_is_symmetric() {
    let padding = PaddingSpecification::uniform(IVec2::new(2, 5));
    assert_eq!(padding, PaddingSpecification::new(2, 5, 2, 5));
    assert_eq!(padding.left, padding.right);
    assert_eq!(padding.top, padding.bottom);
}

#[test]
fn padding_from_vector_is_uniform() {
    let padding: PaddingSpecification = IVec2::new(2, 5).into();
    assert_eq!(padding, PaddingSpecification::uniform(IVec2::new(2, 5)));
    assert_eq!(PaddingSpecification::from(IVec2::new(0, 7)), PaddingSpecification::new(0, 7, 0, 7));
}

#[test]
fn padding_default_is_zero() {
    assert_eq!(PaddingSpecification::default(), PaddingSpecification::new(0, 0, 0, 0));
}

#[test]
fn white_is_opaque() {
    let white = Color::white();
    assert_eq!(white, Color { red: 255, green: 255, blue: 255, alpha: 255 });
}

#[test]
fn default_sprite_is_the_first_and_untinted() {
    let sprite = TextureAtlasSprite::default();
    assert_eq!(sprite.index, 0);
    assert_eq!(sprite.color, Color::white());
}

#[test]
fn new_sprite_has_its_index_and_no_tint() {
    for index in [0, 1, 17, u32::MAX] {
        let sprite = TextureAtlasSprite::new(index);
        assert_eq!(sprite.index, index);
        assert_eq!(sprite.color, Color::white());
    }
    assert_eq!(TextureAtlasSprite::new(0), TextureAtlasSprite::default());
}

#[test]
fn sprite_index_can_step_through_frames() {
    let mut sprite = TextureAtlasSprite::new(0);
    for frame in 1..4 {
        sprite.index = frame;
        assert_eq!(sprite.index, frame);
        assert_eq!(sprite.color, Color::white());
    }
}

#[test]
fn handle_keeps_its_id() {
    assert_eq!(TextureHandle::new(12).id, 12);
    assert_eq!(TextureHandle::new(12), TextureHandle { id: 12 });
    assert_ne!(TextureHandle::new(12), TextureHandle::new(13));
}
