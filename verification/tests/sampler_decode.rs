use rxing::Writer;
use shopping_list::barcode_scanner::decode::process_frame;
use shopping_list::barcode_scanner::sampler::{band_offset, convert_to_luma, BAND_HEIGHT};
use shopping_list::barcode_scanner::BarcodeType;

#[test]
fn band_offset_centres_band_in_tall_frames() {
    assert_eq!(band_offset(480), 190);
    assert_eq!(band_offset(1080), 490);
    assert_eq!(band_offset(101), 0);
    assert_eq!(band_offset(100), 0);
    assert_eq!(band_offset(99), 0);
    assert_eq!(band_offset(0), 0);
}

#[test]
fn luma_conversion_matches_bt601_weights() {
    let rgba = vec![
        255, 255, 255, 255, // white
        0, 0, 0, 255, // black
        255, 0, 0, 255, // red
        0, 255, 0, 255, // green
        0, 0, 255, 255, // blue
        9, 9, 9, 0, // fully transparent reads as white
    ];
    let luma = convert_to_luma(&rgba);
    assert_eq!(luma, vec![255, 0, 76, 150, 29, 255]);
}

#[test]
fn luma_conversion_ignores_trailing_bytes() {
    let rgba = vec![10, 20, 30, 255, 1, 2, 3];
    let luma = convert_to_luma(&rgba);
    assert_eq!(luma.len(), 1);
}

fn matrix_to_band_rgba(matrix: &rxing::common::BitMatrix) -> (Vec<u8>, u32) {
    let width = matrix.width();
    assert_eq!(matrix.height(), BAND_HEIGHT);
    let mut rgba = Vec::with_capacity((4 * width * BAND_HEIGHT) as usize);
    for y in 0..BAND_HEIGHT {
        for x in 0..width {
            let v: u8 = if matrix.get(x, y) { 0 } else { 255 };
            rgba.extend_from_slice(&[v, v, v, 255]);
        }
    }
    (rgba, width)
}

#[test]
fn full_pipeline_decodes_an_ean13_band() {
    let writer = rxing::oned::EAN13Writer;
    let matrix = writer
        .encode(
            "4006381333931",
            &rxing::BarcodeFormat::EAN_13,
            400,
            BAND_HEIGHT as i32,
        )
        .unwrap();
    let (rgba, width) = matrix_to_band_rgba(&matrix);
    let found = process_frame(&rgba, width).unwrap().expect("a barcode");
    assert_eq!(found.get_digits(), 4_006_381_333_931);
    assert!(matches!(found.get_type(), BarcodeType::Ean13));
}

#[test]
fn full_pipeline_decodes_an_ean8_band() {
    let writer = rxing::oned::EAN8Writer;
    let matrix = writer
        .encode(
            "96385074",
            &rxing::BarcodeFormat::EAN_8,
            300,
            BAND_HEIGHT as i32,
        )
        .unwrap();
    let (rgba, width) = matrix_to_band_rgba(&matrix);
    let found = process_frame(&rgba, width).unwrap().expect("a barcode");
    assert_eq!(found.get_digits(), 96_385_074);
    assert!(matches!(found.get_type(), BarcodeType::Ean8));
}

#[test]
fn blank_band_is_a_miss_not_an_error() {
    let width: u32 = 200;
    let rgba = vec![255u8; (4 * width * BAND_HEIGHT) as usize];
    let r = process_frame(&rgba, width).unwrap();
    assert!(r.is_none());
}
