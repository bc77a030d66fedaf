use egui::TextureId;
use studio::selection::{FLAT_NORMAL_COLOR, PREVIEW_HEIGHT, PREVIEW_WIDTH};
use studio::{DecodedImage, SpriteFileSelection};

fn image(width: u32, height: u32) -> DecodedImage {
    let pixels = (0..(4 * width * height)).map(|i| i as u8).collect();
    DecodedImage { width, height, pixels }
}

#[test]
fn new_selection_is_empty_preview() {
    let s = SpriteFileSelection::new("spritesheet".to_string(), TextureId::User(3));
    assert_eq!(s.path(), None);
    assert_eq!(s.size(), (PREVIEW_WIDTH, PREVIEW_HEIGHT));
    assert_eq!(s.size(), (200, 150));
    assert_eq!(s.label(), "spritesheet");
    assert_eq!(s.texture_id(), TextureId::User(3));
}

#[test]
fn try_select_failure_leaves_selection() {
    let mut s = SpriteFileSelection::new("a".to_string(), TextureId::User(1));
    assert!(s.try_select("/x.png".to_string(), None).is_none());
    assert_eq!(s.path(), None);
    assert_eq!(s.size(), (200, 150));
}

#[test]
fn try_select_success_updates_and_uploads() {
    let mut s = SpriteFileSelection::new("a".to_string(), TextureId::User(1));
    let img = image(3, 2);
    let expected = img.pixels.clone();
    let u = s.try_select("/x.png".to_string(), Some(img)).unwrap();
    assert_eq!(s.path(), Some("/x.png"));
    assert_eq!(s.size(), (3, 2));
    assert_eq!((u.width, u.height, u.bytes_per_row, u.rows_per_image), (3, 2, 12, 2));
    assert_eq!(u.pixels, expected);
    assert_eq!(s.texture_id(), TextureId::User(1));
}

#[test]
fn select_returns_old_size_on_failure() {
    let mut s = SpriteFileSelection::new("a".to_string(), TextureId::User(1));
    s.select("/ok.png".to_string(), Some(image(5, 4)));
    let (size, upload) = s.select("/bad.png".to_string(), None);
    assert_eq!(size, (5, 4));
    assert!(upload.is_none());
    assert_eq!(s.path(), Some("/ok.png"));
}

#[test]
fn select_returns_new_size_on_success() {
    let mut s = SpriteFileSelection::new("a".to_string(), TextureId::User(1));
    let (size, upload) = s.select("/ok.png".to_string(), Some(image(7, 1)));
    assert_eq!(size, (7, 1));
    assert_eq!(upload.unwrap().bytes_per_row, 28);
}

#[test]
fn select_or_fill_fills_with_color_on_failure() {
    let mut s = SpriteFileSelection::new("normal_map".to_string(), TextureId::User(2));
    let u = s.select_or_fill("/art/hero_normal.png".to_string(), None, (3, 2), FLAT_NORMAL_COLOR);
    assert_eq!(s.path(), Some("/art/hero_normal.png"));
    assert_eq!(s.size(), (3, 2));
    assert_eq!((u.width, u.height, u.bytes_per_row, u.rows_per_image), (3, 2, 12, 2));
    assert_eq!(u.pixels.len(), 24);
    for px in u.pixels.chunks(4) {
        assert_eq!(px, &[128, 128, 255, 255]);
    }
}

#[test]
fn select_or_fill_empty_size_gives_no_pixels() {
    let mut s = SpriteFileSelection::new("n".to_string(), TextureId::User(2));
    let u = s.select_or_fill("/n.png".to_string(), None, (0, 9), [1, 2, 3, 4]);
    assert!(u.pixels.is_empty());
    assert_eq!(s.size(), (0, 9));
}

#[test]
fn select_or_fill_loads_when_possible() {
    let mut s = SpriteFileSelection::new("n".to_string(), TextureId::User(2));
    let img = image(2, 2);
    let expected = img.pixels.clone();
    let u = s.select_or_fill("/n.png".to_string(), Some(img), (9, 9), [0, 0, 0, 0]);
    assert_eq!(s.size(), (2, 2));
    assert_eq!(u.pixels, expected);
}

#[test]
fn placeholder_names_label() {
    let s = SpriteFileSelection::new("spritesheet".to_string(), TextureId::User(0));
    assert_eq!(s.placeholder_text(), "No spritesheet selected.");
}

#[test]
fn display_name_is_file_name() {
    let mut s = SpriteFileSelection::new("a".to_string(), TextureId::User(0));
    assert_eq!(s.display_name(), None);
    s.select("/art/hero.png".to_string(), Some(image(1, 1)));
    assert_eq!(s.display_name(), Some("hero.png".to_string()));
}

#[test]
fn new_selecting_without_path_is_empty() {
    let (s, upload) = SpriteFileSelection::new_selecting("a".to_string(), TextureId::User(4), None);
    assert!(upload.is_none());
    assert_eq!(s.path(), None);
    assert_eq!(s.size(), (200, 150));
}

#[test]
fn new_selecting_loads_initial_path() {
    let img = image(4, 3);
    let expected = img.pixels.clone();
    let (s, upload) = SpriteFileSelection::new_selecting(
        "a".to_string(),
        TextureId::User(4),
        Some(("/x.png".to_string(), Some(img))),
    );
    assert_eq!(s.path(), Some("/x.png"));
    assert_eq!(s.size(), (4, 3));
    assert_eq!(upload.unwrap().pixels, expected);
}

#[test]
fn new_selecting_unreadable_path_stays_empty() {
    let (s, upload) = SpriteFileSelection::new_selecting(
        "a".to_string(),
        TextureId::User(4),
        Some(("/missing.png".to_string(), None)),
    );
    assert!(upload.is_none());
    assert_eq!(s.path(), None);
    assert_eq!(s.size(), (200, 150));
}
