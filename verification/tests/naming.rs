use studio::{checked_normal_map_filename, generate_normal_map_filename};
use studio::naming::{file_stem, normal_map_name};

#[test]
fn stem_drops_last_extension() {
    assert_eq!(file_stem("sprite.png"), "sprite");
    assert_eq!(file_stem("a.b.png"), "a.b");
    assert_eq!(file_stem("a.b."), "a.b");
}

#[test]
fn stem_keeps_names_without_extension() {
    assert_eq!(file_stem("sprite"), "sprite");
    assert_eq!(file_stem(".bashrc"), ".bashrc");
    assert_eq!(file_stem(".."), "..");
    assert_eq!(file_stem("..png"), ".");
}

#[test]
fn normal_map_name_appends_suffix() {
    assert_eq!(normal_map_name("hero.png"), "hero_normal.png");
    assert_eq!(normal_map_name("hero"), "hero_normal.png");
}

#[test]
fn normal_map_path_is_beside_sprite() {
    assert_eq!(generate_normal_map_filename("/art/walk/hero.png"), "/art/walk/hero_normal.png");
    assert_eq!(generate_normal_map_filename("hero.png"), "hero_normal.png");
    assert_eq!(
        checked_normal_map_filename("/art/walk/hero.png"),
        Some("/art/walk/hero_normal.png".to_string())
    );
}

#[test]
fn normal_map_path_needs_a_file_name() {
    assert_eq!(checked_normal_map_filename("/"), None);
    assert_eq!(checked_normal_map_filename("/art/.."), None);
}
