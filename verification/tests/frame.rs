use chinchilib::{put_pixel, Rgba8};

#[test]
fn put_pixel_writes_four_bytes_in_row_major_order() {
    let mut frame = vec![0u8; 2 * 2 * 4];
    put_pixel(&mut frame, 2, 1, 1, Rgba8 { r: 1, g: 2, b: 3, a: 4 });
    let mut expected = vec![0u8; 16];
    expected[12..16].copy_from_slice(&[1, 2, 3, 4]);
    assert_eq!(frame, expected);
}

#[test]
fn put_pixel_first_and_row_start() {
    let mut frame = vec![9u8; 3 * 2 * 4 + 3];
    put_pixel(&mut frame, 3, 0, 0, Rgba8 { r: 10, g: 20, b: 30, a: 40 });
    put_pixel(&mut frame, 3, 0, 1, Rgba8 { r: 50, g: 60, b: 70, a: 80 });
    assert_eq!(&frame[0..4], &[10, 20, 30, 40]);
    assert_eq!(&frame[4..12], &[9; 8]);
    assert_eq!(&frame[12..16], &[50, 60, 70, 80]);
    assert_eq!(&frame[16..], &[9; 11]);
}
