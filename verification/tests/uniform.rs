use studio::{CameraUniform, ViewportDataUniform};

fn native(words: &[u32]) -> Vec<u8> {
    words.iter().flat_map(|w| w.to_ne_bytes()).collect()
}

#[test]
fn camera_new_stores_sizes_and_zero_padding() {
    let c = CameraUniform::new((640, 480), 1024);
    assert_eq!(c.words(), vec![640, 480, 1024, 0]);
}

#[test]
fn camera_new_truncates_sizes_to_u32() {
    let big = (1usize << 32) + 5;
    if usize::BITS == 64 {
        let c = CameraUniform::new((big, 7), big + 1);
        assert_eq!(c.words(), vec![5, 7, 6, 0]);
    }
}

#[test]
fn camera_bytes_are_sixteen_native_bytes() {
    let c = CameraUniform::new((1, 2), 0x0102_0304);
    let b = c.as_bytes();
    assert_eq!(b.len(), 16);
    assert_eq!(b, native(&[1, 2, 0x0102_0304, 0]));
}

#[test]
fn camera_bytes_decode_back_to_fields() {
    let c = CameraUniform::new((300, 200), 256);
    let b = c.as_bytes();
    let decoded: Vec<u32> = b.chunks(4).map(|q| u32::from_ne_bytes([q[0], q[1], q[2], q[3]])).collect();
    assert_eq!(decoded, c.words());
}

#[test]
fn camera_buffer_contents_are_square_camera() {
    let b = CameraUniform::buffer_contents(256);
    assert_eq!(b, native(&[256, 256, 256, 0]));
}

#[test]
fn viewport_data_is_blue_63() {
    let v = ViewportDataUniform::new();
    assert_eq!(v.words(), vec![63]);
    assert_eq!(v.as_bytes(), native(&[63]));
    assert_eq!(ViewportDataUniform::buffer_contents(), 63u32.to_ne_bytes().to_vec());
}
