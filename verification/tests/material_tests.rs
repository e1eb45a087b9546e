use wgpu_test::gfx::material::{default_prop, texture_upload, MaterialProperties};

#[test]
fn texture_rows_are_flipped() {
    // 2 x 3 image; each pixel's bytes name its row and column.
    let mut pixels = Vec::new();
    for y in 0..3u8 {
        for x in 0..2u8 {
            pixels.extend_from_slice(&[y, x, 10 * y + x, 255]);
        }
    }
    let t = texture_upload(2, 3, pixels);
    assert_eq!(t.width, 2);
    assert_eq!(t.height, 3);
    assert_eq!(t.depth_or_array_layers, 1);
    assert_eq!(t.bytes_per_row, 8);
    assert_eq!(t.rows_per_image, 3);
    assert_eq!(&t.pixels[0..8], &[2, 0, 20, 255, 2, 1, 21, 255]);
    assert_eq!(&t.pixels[8..16], &[1, 0, 10, 255, 1, 1, 11, 255]);
    assert_eq!(&t.pixels[16..24], &[0, 0, 0, 255, 0, 1, 1, 255]);
}

#[test]
fn flipping_twice_restores() {
    let pixels: Vec<u8> = (0..48).collect();
    let once = texture_upload(3, 4, pixels.clone());
    let twice = texture_upload(3, 4, once.pixels);
    assert_eq!(twice.pixels, pixels);
}

#[test]
fn empty_texture() {
    let t = texture_upload(0, 0, vec![]);
    assert!(t.pixels.is_empty());
    assert_eq!(t.bytes_per_row, 0);
}

#[test]
fn material_bytes() {
    let p = default_prop();
    assert_eq!(p.lit, 1);
    assert_eq!(p.bytes(), 1u32.to_ne_bytes().to_vec());
    assert_eq!(MaterialProperties { lit: 0 }.bytes(), vec![0, 0, 0, 0]);
}
