use raytracer::framebuffer::{buffer_len, pack_rgb, pixel_index, pixel_position, Rgb8};

#[test]
fn buffer_len_is_three_bytes_per_pixel() {
    assert_eq!(buffer_len(2, 1), Some(6));
    assert_eq!(buffer_len(900, 600), Some(1_620_000));
    assert_eq!(buffer_len(0, 7), Some(0));
}

#[test]
fn buffer_len_overflow_is_none() {
    assert_eq!(buffer_len(usize::MAX, 2), None);
    assert_eq!(buffer_len(usize::MAX / 3 + 1, 1), None);
    assert_eq!(buffer_len(usize::MAX / 3, 1), Some(usize::MAX / 3 * 3));
}

#[test]
fn pixel_position_is_row_major() {
    assert_eq!(pixel_position(0, 4), (0, 0));
    assert_eq!(pixel_position(3, 4), (3, 0));
    assert_eq!(pixel_position(4, 4), (0, 1));
    assert_eq!(pixel_position(11, 4), (3, 2));
    assert_eq!(pixel_position(5, 1), (0, 5));
}

#[test]
fn pixel_index_inside_and_outside() {
    assert_eq!(pixel_index(3, 2, 4, 3), Some(11));
    assert_eq!(pixel_index(0, 0, 4, 3), Some(0));
    assert_eq!(pixel_index(4, 0, 4, 3), None);
    assert_eq!(pixel_index(0, 3, 4, 3), None);
}

#[test]
fn pixel_index_round_trips_position() {
    for i in 0..12usize {
        let (col, row) = pixel_position(i, 4);
        assert_eq!(pixel_index(col, row, 4, 3), Some(i));
    }
}

#[test]
fn pack_rgb_two_by_one() {
    let pixels = vec![Rgb8::new(10, 20, 30), Rgb8::new(200, 150, 255)];
    let bytes = pack_rgb(2, 1, &pixels).unwrap();
    assert_eq!(bytes, vec![10, 20, 30, 200, 150, 255]);
}

#[test]
fn pack_rgb_length_is_three_w_h() {
    for (w, h) in [(1usize, 1usize), (3, 2), (5, 4), (16, 9)] {
        let pixels: Vec<Rgb8> = (0..w * h).map(|i| Rgb8::new(i as u8, 0, 255)).collect();
        let bytes = pack_rgb(w, h, &pixels).unwrap();
        assert_eq!(bytes.len(), 3 * w * h);
        assert_eq!(bytes[3 * (w * h - 1)], (w * h - 1) as u8);
        assert_eq!(bytes[3 * (w * h - 1) + 2], 255);
    }
}

#[test]
fn pack_rgb_empty_image() {
    let pixels: Vec<Rgb8> = Vec::new();
    assert_eq!(pack_rgb(0, 5, &pixels), Some(vec![]));
}

#[test]
fn pack_rgb_wrong_pixel_count() {
    let pixels = vec![Rgb8::new(1, 2, 3)];
    assert_eq!(pack_rgb(2, 1, &pixels), None);
    assert_eq!(pack_rgb(1, 1, &pixels), Some(vec![1, 2, 3]));
}

#[test]
fn pack_rgb_too_large() {
    let pixels: Vec<Rgb8> = Vec::new();
    assert_eq!(pack_rgb(usize::MAX, 2, &pixels), None);
}
