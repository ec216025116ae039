//! The cross-stage channel and the readback step: depadding, the gated
//! store, and the delivery protocol.

use render_to_texture::fetch::depad_rows;
use render_to_texture::{store_in_img, sync_images, ExtractableImages};

#[test]
fn depad_strips_row_padding() {
    // Two rows of four pixel bytes, each padded to six bytes.
    let padded: Vec<u8> = vec![1, 2, 3, 4, 90, 91, 5, 6, 7, 8, 92, 93];
    let compact = depad_rows(&padded, 4, 6, 2);
    assert_eq!(compact, vec![1, 2, 3, 4, 5, 6, 7, 8]);
}

#[test]
fn depad_without_padding_copies_rows() {
    let padded: Vec<u8> = vec![1, 2, 3, 4, 5, 6];
    let compact = depad_rows(&padded, 3, 3, 2);
    assert_eq!(compact, vec![1, 2, 3, 4, 5, 6]);
}

#[test]
fn depad_zero_rows_is_empty() {
    let padded: Vec<u8> = vec![7, 7, 7, 7];
    let compact = depad_rows(&padded, 4, 4, 0);
    assert_eq!(compact, Vec::<u8>::new());
}

#[test]
fn depad_zero_row_bytes_is_empty() {
    // A zero-sized capture never reaches into the buffer.
    let padded: Vec<u8> = Vec::new();
    let compact = depad_rows(&padded, 0, 256, 0);
    assert_eq!(compact, Vec::<u8>::new());
}

#[test]
fn store_in_img_without_refresh_discards() {
    let mapped: Vec<u8> = vec![1, 2, 3, 4];
    let mut render_side = ExtractableImages::new();
    store_in_img(&mapped, 4, 4, 1, &mut render_side);
    assert_eq!(render_side.raw, Vec::<u8>::new());
    assert!(!render_side.refresh);
}

#[test]
fn store_in_img_with_refresh_stores_depadded() {
    let mapped: Vec<u8> = vec![1, 2, 3, 4, 90, 91, 5, 6, 7, 8, 92, 93];
    let mut render_side = ExtractableImages::new();
    render_side.refresh = true;
    store_in_img(&mapped, 4, 6, 2, &mut render_side);
    assert_eq!(render_side.raw, vec![1, 2, 3, 4, 5, 6, 7, 8]);
    assert!(render_side.refresh);
}

#[test]
fn sync_images_copies_refresh_request_to_producer() {
    let mut render_side = ExtractableImages::new();
    let mut main_side = ExtractableImages::new();
    main_side.refresh = true;
    sync_images(&mut render_side, &mut main_side);
    assert!(render_side.refresh);
    assert!(main_side.refresh);
    assert_eq!(main_side.raw, Vec::<u8>::new());
}

#[test]
fn sync_images_delivers_when_consumer_drained() {
    let mut render_side = ExtractableImages::new();
    let mut main_side = ExtractableImages::new();
    render_side.raw = vec![1, 2, 3];
    main_side.refresh = true;
    sync_images(&mut render_side, &mut main_side);
    assert_eq!(main_side.raw, vec![1, 2, 3]);
    assert_eq!(render_side.raw, Vec::<u8>::new());
    // The request is considered served by the delivery.
    assert!(!main_side.refresh);
}

#[test]
fn sync_images_never_overwrites_undrained_delivery() {
    let mut render_side = ExtractableImages::new();
    let mut main_side = ExtractableImages::new();
    render_side.raw = vec![4, 5, 6];
    main_side.raw = vec![1, 2, 3];
    sync_images(&mut render_side, &mut main_side);
    // Back-pressure: the undrained delivery stays, the producer keeps its
    // frame for a later boundary step.
    assert_eq!(main_side.raw, vec![1, 2, 3]);
    assert_eq!(render_side.raw, vec![4, 5, 6]);
}

#[test]
fn sync_images_with_empty_producer_does_nothing() {
    let mut render_side = ExtractableImages::new();
    let mut main_side = ExtractableImages::new();
    main_side.raw = vec![1];
    sync_images(&mut render_side, &mut main_side);
    assert_eq!(main_side.raw, vec![1]);
    assert_eq!(render_side.raw, Vec::<u8>::new());
}
