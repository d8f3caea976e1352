use hotshot::errors::CaptureError;
use hotshot::geometry::Region;
use hotshot::pixels::{buffer_from_wire, channel_swap, crop, crop_bounds, PixelBuffer};
use hotshot::portal::portal_crop;

#[test]
fn channel_swap_swaps_first_and_third_of_each_pixel() {
    let mut data = vec![1u8, 2, 3, 4, 5, 6, 7, 8];
    channel_swap(&mut data);
    assert_eq!(data, vec![3, 2, 1, 4, 7, 6, 5, 8]);
}

#[test]
fn channel_swap_is_its_own_inverse() {
    let original: Vec<u8> = (0u8..=250).chain(0u8..13).collect();
    let mut data = original.clone();
    channel_swap(&mut data);
    assert_ne!(data, original);
    channel_swap(&mut data);
    assert_eq!(data, original);
}

#[test]
fn channel_swap_leaves_a_trailing_partial_pixel_alone() {
    let mut data = vec![1u8, 2, 3, 4, 9, 8, 7];
    channel_swap(&mut data);
    assert_eq!(data, vec![3, 2, 1, 4, 9, 8, 7]);
}

#[test]
fn wire_buffer_converts_and_checks_the_byte_count() {
    // A 2x1 image in reversed-channel order.
    let wire = vec![10u8, 20, 30, 255, 40, 50, 60, 255];
    let buf = buffer_from_wire(2, 1, wire).unwrap();
    assert_eq!(buf.width, 2);
    assert_eq!(buf.height, 1);
    assert_eq!(buf.data, vec![30, 20, 10, 255, 60, 50, 40, 255]);

    let short = buffer_from_wire(2, 1, vec![0u8; 7]);
    assert!(matches!(short, Err(CaptureError::ProtocolRequestFailed(_, _))));
}

#[test]
fn fullscreen_buffer_length_is_width_height_times_four() {
    let wire = vec![0u8; 640 * 480 * 4];
    let buf = buffer_from_wire(640, 480, wire).unwrap();
    assert_eq!(buf.data.len(), 640 * 480 * 4);
}

#[test]
fn crop_extracts_the_rectangle_row_by_row() {
    // A 3x2 image whose pixel (i, j) has red channel 10*j + i.
    let mut data = Vec::new();
    for j in 0..2u8 {
        for i in 0..3u8 {
            data.extend_from_slice(&[10 * j + i, 100, 200, 255]);
        }
    }
    let buf = PixelBuffer { width: 3, height: 2, data };
    let out = crop(&buf, 1, 0, 2, 2);
    assert_eq!(out.width, 2);
    assert_eq!(out.height, 2);
    let reds: Vec<u8> = out.data.chunks(4).map(|p| p[0]).collect();
    assert_eq!(reds, vec![1, 2, 11, 12]);
}

#[test]
fn crop_bounds_clamps_and_rejects_empty_areas() {
    let r = crop_bounds(Region { x: -10, y: -20, width: 100, height: 100 }, 50, 40).unwrap();
    assert_eq!(r, (0, 0, 50, 40));
    let r = crop_bounds(Region { x: 30, y: 10, width: 100, height: 100 }, 50, 40).unwrap();
    assert_eq!(r, (30, 10, 20, 30));
    let empty = crop_bounds(Region { x: 60, y: 0, width: 10, height: 10 }, 50, 40);
    assert!(matches!(empty, Err(CaptureError::RegionOutOfBounds)));
    let zero = crop_bounds(Region { x: 0, y: 0, width: 0, height: 10 }, 50, 40);
    assert!(matches!(zero, Err(CaptureError::RegionOutOfBounds)));
}

#[test]
fn portal_crop_cuts_the_clamped_rectangle() {
    // A 2x2 image with distinct red channels.
    let data = vec![
        0u8, 0, 0, 255, 1, 0, 0, 255,
        2, 0, 0, 255, 3, 0, 0, 255,
    ];
    let full = PixelBuffer { width: 2, height: 2, data };
    let out = portal_crop(&full, Region { x: 1, y: 1, width: 5, height: 5 }).unwrap();
    assert_eq!(out.width, 1);
    assert_eq!(out.height, 1);
    assert_eq!(out.data, vec![3, 0, 0, 255]);

    let out = portal_crop(&full, Region { x: 2, y: 0, width: 5, height: 5 });
    assert!(matches!(out, Err(CaptureError::RegionOutOfBounds)));
}
