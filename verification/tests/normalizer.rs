//! Tests of the pixel normalizer and the raw-frame constructor.

use captis::frame::normalize;
use captis::RawFrame;

fn frame(width: u16, height: u16, stride: usize, data: Vec<u8>) -> RawFrame {
    RawFrame::new(width, height, stride, data).expect("well-formed frame")
}

#[test]
fn single_record_swaps_channels() {
    let f = frame(1, 1, 4, vec![10, 20, 30, 99]);
    let img = normalize(&f);
    assert_eq!(img.width(), 1);
    assert_eq!(img.height(), 1);
    assert_eq!(img.as_raw().as_slice(), &[30, 20, 10]);
}

#[test]
fn padding_byte_value_is_irrelevant() {
    let a = normalize(&frame(2, 1, 8, vec![1, 2, 3, 0, 4, 5, 6, 0]));
    let b = normalize(&frame(2, 1, 8, vec![1, 2, 3, 255, 4, 5, 6, 7]));
    assert_eq!(a.as_raw(), b.as_raw());
    assert_eq!(a.as_raw().as_slice(), &[3, 2, 1, 6, 5, 4]);
}

#[test]
fn stride_padding_region_is_never_copied() {
    // Two rows of two pixels, each row padded with four poison bytes.
    let data = vec![
        1, 2, 3, 4, 5, 6, 7, 8, 0xEE, 0xEE, 0xEE, 0xEE, // row 0
        9, 10, 11, 12, 13, 14, 15, 16, 0xEE, 0xEE, 0xEE, 0xEE, // row 1
    ];
    let img = normalize(&frame(2, 2, 12, data));
    assert_eq!(img.width(), 2);
    assert_eq!(img.height(), 2);
    assert_eq!(img.as_raw().len(), 2 * 2 * 3);
    assert_eq!(
        img.as_raw().as_slice(),
        &[3, 2, 1, 7, 6, 5, 11, 10, 9, 15, 14, 13]
    );
    assert!(img.as_raw().iter().all(|&b| b != 0xEE));
}

#[test]
fn dense_rows_normalize_in_place_order() {
    // One row, three pixels, no alignment padding.
    let img = normalize(&frame(3, 1, 12, vec![1, 2, 3, 0, 4, 5, 6, 0, 7, 8, 9, 0]));
    assert_eq!(img.as_raw().as_slice(), &[3, 2, 1, 6, 5, 4, 9, 8, 7]);
}

#[test]
fn empty_frame_normalizes_to_empty_image() {
    let img = normalize(&frame(0, 0, 0, Vec::new()));
    assert_eq!(img.width(), 0);
    assert_eq!(img.height(), 0);
    assert_eq!(img.as_raw().len(), 0);
}

#[test]
fn frame_constructor_rejects_short_stride() {
    assert!(RawFrame::new(2, 1, 7, vec![0; 7]).is_none());
}

#[test]
fn frame_constructor_rejects_wrong_buffer_length() {
    assert!(RawFrame::new(1, 2, 4, vec![0; 9]).is_none());
    assert!(RawFrame::new(1, 2, 4, vec![0; 7]).is_none());
}

#[test]
fn frame_constructor_accepts_exact_shape() {
    let f = RawFrame::new(1, 2, 6, vec![0; 12]).expect("well-formed frame");
    assert_eq!(f.width(), 1);
    assert_eq!(f.height(), 2);
    assert_eq!(f.stride(), 6);
}
