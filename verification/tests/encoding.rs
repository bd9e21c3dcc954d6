use eink_panel::encoder::encode;
use eink_panel::errors::EinkError;
use eink_panel::geometry::Geometry;
use eink_panel::pixels::PixelImage;

fn geometry(width: usize, height: usize) -> Geometry {
    Geometry::new(width, height).expect("well-formed geometry")
}

fn uniform_image(width: usize, height: usize, luma: u8) -> PixelImage {
    PixelImage::new(width, height, vec![luma; width * height]).expect("well-formed image")
}

#[test]
fn all_white_encodes_to_zero_layer() {
    let g = geometry(400, 300);
    let img = uniform_image(400, 300, 0xFF);
    let fb = encode(&img, &g).expect("matching dimensions");
    assert_eq!(fb.primary.len(), 400 * 300 / 8);
    assert_eq!(fb.secondary.len(), 400 * 300 / 8);
    assert!(fb.primary.iter().all(|&b| b == 0x00));
    assert!(!fb.color);
}

#[test]
fn all_black_encodes_to_ff_layer() {
    let g = geometry(400, 300);
    let img = uniform_image(400, 300, 0x00);
    let fb = encode(&img, &g).expect("matching dimensions");
    assert_eq!(fb.primary.len(), 15000);
    assert!(fb.primary.iter().all(|&b| b == 0xFF));
}

#[test]
fn secondary_layer_is_always_zero() {
    let g = geometry(400, 300);
    let img = uniform_image(400, 300, 0x00);
    let fb = encode(&img, &g).expect("matching dimensions");
    assert!(fb.secondary.iter().all(|&b| b == 0x00));
}

#[test]
fn single_dark_pixel_sets_least_significant_bit() {
    // One dark pixel at the first position of the first 8-pixel group; the
    // least-significant bit is the leftmost pixel of the group.
    let mut luma = vec![0xFF; 16 * 2];
    luma[0] = 0x00;
    let g = geometry(16, 2);
    let img = PixelImage::new(16, 2, luma).expect("well-formed image");
    let fb = encode(&img, &g).expect("matching dimensions");
    assert_eq!(fb.primary, vec![0x01, 0x00, 0x00, 0x00]);
}

#[test]
fn bit_order_is_lsb_first_within_group() {
    // Dark pixels at columns 3 and 10 of a single 16-pixel row.
    let mut luma = vec![0xFF; 16];
    luma[3] = 0x00;
    luma[10] = 0x00;
    let g = geometry(16, 1);
    let img = PixelImage::new(16, 1, luma).expect("well-formed image");
    let fb = encode(&img, &g).expect("matching dimensions");
    assert_eq!(fb.primary, vec![0x08, 0x04]);
}

#[test]
fn dark_threshold_is_strictly_below_127() {
    // 126 is dark, 127 and above are light.
    let g = geometry(8, 1);
    let img = PixelImage::new(8, 1, vec![126, 127, 128, 255, 126, 127, 126, 127])
        .expect("well-formed image");
    let fb = encode(&img, &g).expect("matching dimensions");
    assert_eq!(fb.primary, vec![0b0101_0001]);
}

#[test]
fn rows_pack_in_row_major_order() {
    // 8x2: first row dark, second row light.
    let mut luma = vec![0x00; 8];
    luma.extend(vec![0xFF; 8]);
    let g = geometry(8, 2);
    let img = PixelImage::new(8, 2, luma).expect("well-formed image");
    let fb = encode(&img, &g).expect("matching dimensions");
    assert_eq!(fb.primary, vec![0xFF, 0x00]);
}

#[test]
fn dimension_mismatch_is_rejected() {
    // A 399x300 image against a 400x300 geometry.
    let g = geometry(400, 300);
    let img = PixelImage::new(399, 300, vec![0xFF; 399 * 300]).expect("well-formed image");
    assert_eq!(encode(&img, &g).err(), Some(EinkError::DimensionMismatch));
}

#[test]
fn height_mismatch_is_rejected() {
    let g = geometry(400, 300);
    let img = uniform_image(400, 299, 0xFF);
    assert_eq!(encode(&img, &g).err(), Some(EinkError::DimensionMismatch));
}

#[test]
fn short_sample_vector_is_a_pixel_access_error() {
    assert_eq!(
        PixelImage::new(8, 1, vec![0xFF; 7]).err(),
        Some(EinkError::PixelAccessError)
    );
}

#[test]
fn empty_geometry_encodes_to_empty_layers() {
    let g = geometry(0, 0);
    let img = PixelImage::new(0, 0, vec![]).expect("well-formed image");
    let fb = encode(&img, &g).expect("matching dimensions");
    assert!(fb.primary.is_empty());
    assert!(fb.secondary.is_empty());
}

#[test]
fn geometry_width_must_be_multiple_of_8() {
    assert!(Geometry::new(399, 300).is_none());
    assert!(Geometry::new(400, 300).is_some());
}

#[test]
fn geometry_must_fit_buffer_capacity() {
    // 400 * 304 pixels would need more than the fixed 15000-byte layer.
    assert!(Geometry::new(400, 304).is_none());
    assert!(Geometry::new(400, 300).is_some());
}
