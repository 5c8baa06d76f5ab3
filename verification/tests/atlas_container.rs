use bevy_utils::HashMap;
use texture_atlas::atlas::TextureAtlas;
use texture_atlas::geometry::{IVec2, Rect};
use texture_atlas::handle::TextureHandle;

fn square(at: i32) -> Rect {
    Rect::new(IVec2::new(at, at), IVec2::new(at + 8, at + 8)).unwrap()
}

#[test]
fn new_empty_has_no_sprite_and_no_table() {
    let atlas = TextureAtlas::new_empty(TextureHandle::new(42), IVec2::new(256, 128));
    assert_eq!(atlas.len(), 0);
    assert!(atlas.is_empty());
    assert_eq!(atlas.texture, TextureHandle::new(42));
    assert_eq!(atlas.size, IVec2::new(256, 128));
    assert!(atlas.textures.is_empty());
    assert!(atlas.texture_handles.is_none());
    assert_eq!(atlas.get_texture_index(&TextureHandle::new(42)), None);
}

#[test]
fn added_rectangle_takes_the_next_index() {
    let mut atlas = TextureAtlas::new_empty(TextureHandle::new(1), IVec2::new(64, 64));
    for n in 0..5usize {
        assert_eq!(atlas.len(), n);
        let rect = square(8 * n as i32);
        atlas.add_texture(rect);
        assert_eq!(atlas.len(), n + 1);
        assert_eq!(atlas.textures[n], rect);
        assert!(!atlas.is_empty());
        for earlier in 0..n {
            assert_eq!(atlas.textures[earlier], square(8 * earlier as i32));
        }
    }
    assert_eq!(atlas.texture, TextureHandle::new(1));
    assert_eq!(atlas.size, IVec2::new(64, 64));
    assert!(atlas.texture_handles.is_none());
}

#[test]
fn rectangles_may_overlap_and_repeat() {
    let mut atlas = TextureAtlas::new_empty(TextureHandle::new(1), IVec2::new(64, 64));
    atlas.add_texture(square(0));
    atlas.add_texture(square(4));
    atlas.add_texture(square(0));
    assert_eq!(atlas.len(), 3);
    assert_eq!(atlas.textures, vec![square(0), square(4), square(0)]);
}

#[test]
fn rectangle_can_be_added_to_a_grid() {
    let mut atlas =
        TextureAtlas::from_grid(TextureHandle::new(1), IVec2::new(32, 32), IVec2::new(128, 64))
            .unwrap();
    let third = atlas.textures[3];
    atlas.add_texture(square(100));
    assert_eq!(atlas.len(), 9);
    assert_eq!(atlas.textures[8], square(100));
    assert_eq!(atlas.textures[3], third);
}

#[test]
fn queries_answer_alike_when_asked_again() {
    let mut atlas = TextureAtlas::new_empty(TextureHandle::new(1), IVec2::new(64, 64));
    assert_eq!(atlas.len(), atlas.len());
    assert_eq!(atlas.is_empty(), atlas.is_empty());
    assert_eq!(atlas.is_empty(), atlas.len() == 0);
    atlas.add_texture(square(0));
    atlas.add_texture(square(8));
    for _ in 0..3 {
        assert_eq!(atlas.len(), 2);
        assert!(!atlas.is_empty());
    }
    assert_eq!(atlas.is_empty(), atlas.len() == 0);
}

#[test]
fn handle_in_the_table_is_found() {
    let mut atlas = TextureAtlas::new_empty(TextureHandle::new(1), IVec2::new(64, 64));
    atlas.add_texture(square(0));
    atlas.add_texture(square(8));
    atlas.add_texture(square(16));
    let mut table: HashMap<u64, usize> = HashMap::default();
    table.insert(500, 2);
    table.insert(7, 0);
    table.insert(u64::MAX, 1);
    atlas.texture_handles = Some(table);
    assert_eq!(atlas.get_texture_index(&TextureHandle::new(500)), Some(2));
    assert_eq!(atlas.get_texture_index(&TextureHandle::new(7)), Some(0));
    assert_eq!(atlas.get_texture_index(&TextureHandle::new(u64::MAX)), Some(1));
}

#[test]
fn handle_missing_from_the_table_is_not_found() {
    let mut atlas = TextureAtlas::new_empty(TextureHandle::new(1), IVec2::new(64, 64));
    let mut table: HashMap<u64, usize> = HashMap::default();
    table.insert(500, 2);
    atlas.texture_handles = Some(table);
    assert_eq!(atlas.get_texture_index(&TextureHandle::new(2)), None);
    assert_eq!(atlas.get_texture_index(&TextureHandle::new(0)), None);
    assert_eq!(atlas.get_texture_index(&TextureHandle::new(1)), None);
    atlas.texture_handles = Some(HashMap::default());
    assert_eq!(atlas.get_texture_index(&TextureHandle::new(500)), None);
}

#[test]
fn lookup_does_not_change_the_atlas() {
    let mut atlas = TextureAtlas::new_empty(TextureHandle::new(1), IVec2::new(64, 64));
    atlas.add_texture(square(0));
    let mut table: HashMap<u64, usize> = HashMap::default();
    table.insert(11, 0);
    atlas.texture_handles = Some(table);
    assert_eq!(atlas.get_texture_index(&TextureHandle::new(11)), Some(0));
    assert_eq!(atlas.get_texture_index(&TextureHandle::new(11)), Some(0));
    assert_eq!(atlas.len(), 1);
    assert_eq!(atlas.texture_handles.as_ref().map(|table| table.len()), Some(1));
}

#[test]
fn buffer_of_an_empty_atlas_is_empty() {
    let atlas = TextureAtlas::new_empty(TextureHandle::new(1), IVec2::new(64, 64));
    assert_eq!(atlas.rect_buffer(), Vec::<i32>::new());
}

#[test]
fn buffer_lists_four_numbers_for_each_rectangle() {
    let mut atlas = TextureAtlas::new_empty(TextureHandle::new(1), IVec2::new(64, 64));
    atlas.add_texture(Rect::new(IVec2::new(1, 2), IVec2::new(3, 4)).unwrap());
    atlas.add_texture(Rect::new(IVec2::new(-5, -6), IVec2::new(7, 8)).unwrap());
    assert_eq!(atlas.rect_buffer(), vec![1, 2, 3, 4, -5, -6, 7, 8]);
    atlas.add_texture(square(16));
    assert_eq!(atlas.rect_buffer(), vec![1, 2, 3, 4, -5, -6, 7, 8, 16, 16, 24, 24]);
}

#[test]
fn buffer_of_a_grid_follows_the_order_of_the_cells() {
    let atlas =
        TextureAtlas::from_grid(TextureHandle::new(1), IVec2::new(32, 32), IVec2::new(64, 64))
            .unwrap();
    assert_eq!(
        atlas.rect_buffer(),
        vec![0, 0, 32, 32, 32, 0, 64, 32, 0, 32, 32, 64, 32, 32, 64, 64]
    );
}

#[test]
fn size_fields_are_width_and_height() {
    let atlas = TextureAtlas::new_empty(TextureHandle::new(1), IVec2::new(256, 128));
    assert_eq!(atlas.size_fields(), [256, 128]);
    let atlas =
        TextureAtlas::from_grid(TextureHandle::new(1), IVec2::new(32, 32), IVec2::new(-3, 70))
            .unwrap();
    assert_eq!(atlas.size_fields(), [-3, 70]);
}
