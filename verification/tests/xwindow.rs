use hotshot::errors::CaptureError;
use hotshot::geometry::Region;
use hotshot::overlay::{overlay_plan, release_order, DrawOp, FillRect, OverlayResource};
use hotshot::xwindow::{
    active_window_from_property, find_argb_visual_and_format, find_pictformat_for_visual,
    window_capture_region, PictVisual,
};

#[test]
fn active_window_property_reads_the_little_endian_word() {
    let id = active_window_from_property(&vec![0x78, 0x56, 0x34, 0x12]).unwrap();
    assert_eq!(id, 0x12345678);
    // Extra property bytes beyond the first word are ignored.
    let id = active_window_from_property(&vec![1, 0, 0, 0, 9, 9]).unwrap();
    assert_eq!(id, 1);
}

#[test]
fn missing_or_zero_active_window_is_an_error() {
    assert!(matches!(
        active_window_from_property(&vec![]),
        Err(CaptureError::NoActiveWindow)
    ));
    assert!(matches!(
        active_window_from_property(&vec![1, 2, 3]),
        Err(CaptureError::NoActiveWindow)
    ));
    assert!(matches!(
        active_window_from_property(&vec![0, 0, 0, 0]),
        Err(CaptureError::NoActiveWindow)
    ));
}

#[test]
fn window_region_uses_translated_origin_and_geometry_size() {
    let r = window_capture_region(-5, 30, 1024, 768);
    assert_eq!(r, Region { x: -5, y: 30, width: 1024, height: 768 });
}

fn pv(visual: u32, depth: u8, format: u32) -> PictVisual {
    PictVisual { visual, depth, format }
}

#[test]
fn argb_search_takes_the_first_32_bit_visual_the_screen_allows() {
    let pict = vec![pv(7, 24, 70), pv(8, 32, 80), pv(9, 32, 90)];
    // Visual 8 is 32-bit but not allowed by the screen; 9 is.
    let r = find_argb_visual_and_format(&pict, &vec![9, 11]).unwrap();
    assert_eq!(r, (9, 32, 90));
    let r = find_argb_visual_and_format(&pict, &vec![8, 9]).unwrap();
    assert_eq!(r, (8, 32, 80));
    let none = find_argb_visual_and_format(&pict, &vec![7]);
    assert!(matches!(none, Err(CaptureError::NoCompatibleVisual)));
}

#[test]
fn pictformat_search_matches_the_visual() {
    let pict = vec![pv(7, 24, 70), pv(8, 32, 80)];
    assert_eq!(find_pictformat_for_visual(&pict, 8).unwrap(), 80);
    assert!(matches!(
        find_pictformat_for_visual(&pict, 99),
        Err(CaptureError::ProtocolRequestFailed(_, _))
    ));
}

#[test]
fn overlay_plan_dims_everything_without_a_selection() {
    let plan = overlay_plan(800, 600, None);
    assert_eq!(
        plan,
        vec![
            DrawOp::BlitScreenshot { width: 800, height: 600 },
            DrawOp::DimAll { width: 800, height: 600 },
        ]
    );
    // A zero-area selection draws no cut-out either.
    let plan = overlay_plan(800, 600, Some(Region { x: 5, y: 5, width: 0, height: 3 }));
    assert_eq!(plan.len(), 2);
}

#[test]
fn overlay_plan_cuts_out_the_selection_and_borders_it() {
    let sel = Region { x: 100, y: 120, width: 40, height: 30 };
    let plan = overlay_plan(800, 600, Some(sel));
    assert_eq!(plan.len(), 4);
    assert_eq!(plan[2], DrawOp::CutOut { region: sel });
    assert_eq!(
        plan[3],
        DrawOp::Border {
            top: FillRect { x: 98, y: 118, width: 44, height: 2 },
            bottom: FillRect { x: 98, y: 150, width: 44, height: 2 },
            left: FillRect { x: 98, y: 120, width: 2, height: 30 },
            right: FillRect { x: 140, y: 120, width: 2, height: 30 },
        }
    );
}

#[test]
fn overlay_border_clamps_at_the_screen_edge() {
    let sel = Region { x: 0, y: 0, width: 10, height: 10 };
    let plan = overlay_plan(800, 600, Some(sel));
    match &plan[3] {
        DrawOp::Border { top, left, .. } => {
            assert_eq!(top.x, 0);
            assert_eq!(top.y, 0);
            assert_eq!(left.x, 0);
        },
        other => panic!("expected a border, got {:?}", other),
    }
}

#[test]
fn resources_are_released_in_reverse_acquisition_order_then_ungrabbed() {
    let order = release_order();
    assert_eq!(
        order,
        vec![
            OverlayResource::Cursor,
            OverlayResource::CursorFont,
            OverlayResource::BorderPicture,
            OverlayResource::BorderPixmap,
            OverlayResource::DimPicture,
            OverlayResource::DimPixmap,
            OverlayResource::WindowPicture,
            OverlayResource::OverlayWindow,
            OverlayResource::ScreenshotPicture,
            OverlayResource::ScreenshotPixmap,
            OverlayResource::PointerGrab,
            OverlayResource::KeyboardGrab,
        ]
    );
}
