use studio::dispatch::{
    clamp_render_size, texture_extent, workgroup_count, INITIAL_RENDER_SIZE, MIN_RENDER_SIZE,
    NORMALS_BUFFER_BYTES,
};
use studio::RenderTarget;

#[test]
fn workgroups_round_up() {
    assert_eq!(workgroup_count(0), 0);
    assert_eq!(workgroup_count(1), 1);
    assert_eq!(workgroup_count(16), 1);
    assert_eq!(workgroup_count(17), 2);
    assert_eq!(workgroup_count(256), 16);
    assert_eq!(workgroup_count(1921), 121);
}

#[test]
fn workgroups_cover_every_pixel() {
    for len in 1..2000usize {
        let n = workgroup_count(len) as usize;
        assert!(n * 16 >= len);
        assert!((n - 1) * 16 < len);
    }
}

#[test]
fn clamp_raises_small_sizes() {
    assert_eq!(clamp_render_size((0, 5)), (16, 16));
    assert_eq!(clamp_render_size((15, 16)), (16, 16));
    assert_eq!(clamp_render_size((17, 900)), (17, 900));
    assert_eq!(MIN_RENDER_SIZE, 16);
}

#[test]
fn texture_extent_casts_each_side() {
    assert_eq!(texture_extent((800, 600)), (800, 600));
}

#[test]
fn new_target_is_initial_size() {
    let t = RenderTarget::new();
    assert_eq!(t.size(), (INITIAL_RENDER_SIZE, INITIAL_RENDER_SIZE));
    assert_eq!(INITIAL_RENDER_SIZE, 256);
}

#[test]
fn prepare_same_size_keeps_texture() {
    let mut t = RenderTarget::new();
    let p = t.prepare((256, 256));
    assert!(!p.resize);
    assert_eq!(p.size, (256, 256));
    assert_eq!(p.workgroups, (16, 16));
    assert_eq!(p.extent, (256, 256));
}

#[test]
fn prepare_new_size_resizes_once() {
    let mut t = RenderTarget::new();
    let p = t.prepare((1000, 3));
    assert!(p.resize);
    assert_eq!(p.size, (1000, 16));
    assert_eq!(p.extent, (1000, 16));
    assert_eq!(p.workgroups, (63, 1));
    assert_eq!(t.size(), (1000, 16));
    let q = t.prepare((1000, 3));
    assert!(!q.resize);
    assert_eq!(q.size, (1000, 16));
}

#[test]
fn target_never_below_minimum() {
    let mut t = RenderTarget::new();
    for req in [(0, 0), (1, 100), (100, 1), (16, 16), (5000, 2)] {
        t.prepare(req);
        let (w, h) = t.size();
        assert!(w >= 16 && h >= 16);
    }
}

#[test]
fn normals_buffer_holds_256_square_colors() {
    assert_eq!(NORMALS_BUFFER_BYTES, 262144);
}
