//! Overlay drawing geometry for the interactive selection: the sequence of
//! compositing operations redrawn on every relevant event, and the teardown
//! order of the server-side resources.
//!
//! The library decides *what* to draw and in which order; the protocol
//! transport performs the operations.

use vstd::prelude::*;

use crate::geometry::Region;

verus! {

/// The fixed width, in pixels, of the opaque border drawn around the
/// selection.
pub const BORDER_WIDTH: u32 = 2;

/// An axis-aligned rectangle to fill, in overlay coordinates.
#[derive(Debug, Clone, Copy, PartialEq, Eq, Structural)]
pub struct FillRect {
    pub x: i32,
    pub y: i32,
    pub width: u32,
    pub height: u32,
}

/// One compositing operation of an overlay redraw, in order.
#[derive(Debug, Clone, PartialEq, Eq, Structural)]
pub enum DrawOp {
    /// Composite the captured screenshot onto the whole overlay, replacing
    /// what is there.
    BlitScreenshot { width: u16, height: u16 },
    /// Alpha-blend the semi-transparent dim fill over the whole overlay.
    DimAll { width: u16, height: u16 },
    /// Composite the original, undimmed screenshot pixels back onto exactly
    /// the selection rectangle, cutting a hole in the dim layer.
    CutOut { region: Region },
    /// Fill the four border rectangles with the opaque border source.
    Border { top: FillRect, bottom: FillRect, left: FillRect, right: FillRect },
}

/// The four border rectangles drawn immediately outside a selection, each
/// `BORDER_WIDTH` thick, with the top-left edges clamped to not go negative.
pub open spec fn spec_border_rects(sel: Region) -> (FillRect, FillRect, FillRect, FillRect) {
    let bw = BORDER_WIDTH as int;
    let left_x = if sel.x - bw >= 0 { sel.x - bw } else { 0 };
    let top_y = if sel.y - bw >= 0 { sel.y - bw } else { 0 };
    (
        FillRect {
            x: left_x as i32,
            y: top_y as i32,
            width: (sel.width + 2 * bw) as u32,
            height: bw as u32,
        },
        FillRect {
            x: left_x as i32,
            y: (sel.y + sel.height) as i32,
            width: (sel.width + 2 * bw) as u32,
            height: bw as u32,
        },
        FillRect { x: left_x as i32, y: sel.y, width: bw as u32, height: sel.height },
        FillRect {
            x: (sel.x + sel.width) as i32,
            y: sel.y,
            width: bw as u32,
            height: sel.height,
        },
    )
}

/// The whole redraw for a state of the selection: blit the screenshot, dim
/// everything, and—only when a selection with positive area is active—cut
/// the selection back out and draw its border.
pub open spec fn spec_overlay_plan(sw: u16, sh: u16, sel: Option<Region>) -> Seq<DrawOp> {
    let base = seq![
        DrawOp::BlitScreenshot { width: sw, height: sh },
        DrawOp::DimAll { width: sw, height: sh },
    ];
    match sel {
        Option::Some(r) => {
            if r.width > 0 && r.height > 0 {
                let (top, bottom, left, right) = spec_border_rects(r);
                base + seq![
                    DrawOp::CutOut { region: r },
                    DrawOp::Border { top, bottom, left, right },
                ]
            } else {
                base
            }
        },
        Option::None => base,
    }
}

/// Compute the ordered compositing operations of one overlay redraw.  The
/// selection, if any, must lie within an `i32`/`u32` coordinate range that
/// keeps the border arithmetic exact; the selections produced by drag
/// normalisation on a `u16`-sized screen always do.
pub fn overlay_plan(sw: u16, sh: u16, sel: Option<Region>) -> (r: Vec<DrawOp>)
    requires
        sel matches Option::Some(s) ==> 0 <= s.x <= u16::MAX && 0 <= s.y <= u16::MAX && s.width
            <= u16::MAX && s.height <= u16::MAX,
    ensures
        r@ == spec_overlay_plan(sw, sh, sel),
{
    let mut ops: Vec<DrawOp> = Vec::new();
    ops.push(DrawOp::BlitScreenshot { width: sw, height: sh });
    ops.push(DrawOp::DimAll { width: sw, height: sh });
    match sel {
        Option::Some(s) => {
            if s.width > 0 && s.height > 0 {
                let bw: i32 = 2;
                let left_x: i32 = if s.x - bw >= 0 {
                    s.x - bw
                } else {
                    0
                };
                let top_y: i32 = if s.y - bw >= 0 {
                    s.y - bw
                } else {
                    0
                };
                let top = FillRect {
                    x: left_x,
                    y: top_y,
                    width: s.width + 4,
                    height: 2,
                };
                let bottom = FillRect {
                    x: left_x,
                    y: s.y + s.height as i32,
                    width: s.width + 4,
                    height: 2,
                };
                let left = FillRect { x: left_x, y: s.y, width: 2, height: s.height };
                let right = FillRect {
                    x: s.x + s.width as i32,
                    y: s.y,
                    width: 2,
                    height: s.height,
                };
                ops.push(DrawOp::CutOut { region: s });
                ops.push(DrawOp::Border { top, bottom, left, right });
                proof {
                    assert(ops@ =~= spec_overlay_plan(sw, sh, sel));
                }
                return ops;
            }
        },
        Option::None => {},
    }
    proof {
        assert(ops@ =~= spec_overlay_plan(sw, sh, sel));
    }
    ops
}

/// The server-side resources acquired for the interactive overlay, in
/// acquisition order.
#[derive(Debug, Clone, Copy, PartialEq, Eq, Structural)]
pub enum OverlayResource {
    ScreenshotPixmap,
    ScreenshotPicture,
    OverlayWindow,
    WindowPicture,
    DimPixmap,
    DimPicture,
    BorderPixmap,
    BorderPicture,
    CursorFont,
    Cursor,
    PointerGrab,
    KeyboardGrab,
}

/// The overlay's server-side resources other than the input grabs, in
/// acquisition order.
pub open spec fn spec_acquisition_order() -> Seq<OverlayResource> {
    seq![
        OverlayResource::ScreenshotPixmap,
        OverlayResource::ScreenshotPicture,
        OverlayResource::OverlayWindow,
        OverlayResource::WindowPicture,
        OverlayResource::DimPixmap,
        OverlayResource::DimPicture,
        OverlayResource::BorderPixmap,
        OverlayResource::BorderPicture,
        OverlayResource::CursorFont,
        OverlayResource::Cursor,
    ]
}

/// The order in which the overlay's resources must be released on every exit
/// path—success, cancellation, or error: the drawable resources in strict
/// reverse-acquisition order, then the exclusive input grabs.
pub fn release_order() -> (r: Vec<OverlayResource>)
    ensures
        r@ == spec_acquisition_order().reverse() + seq![
            OverlayResource::PointerGrab,
            OverlayResource::KeyboardGrab,
        ],
{
    let mut r: Vec<OverlayResource> = Vec::new();
    r.push(OverlayResource::Cursor);
    r.push(OverlayResource::CursorFont);
    r.push(OverlayResource::BorderPicture);
    r.push(OverlayResource::BorderPixmap);
    r.push(OverlayResource::DimPicture);
    r.push(OverlayResource::DimPixmap);
    r.push(OverlayResource::WindowPicture);
    r.push(OverlayResource::OverlayWindow);
    r.push(OverlayResource::ScreenshotPicture);
    r.push(OverlayResource::ScreenshotPixmap);
    r.push(OverlayResource::PointerGrab);
    r.push(OverlayResource::KeyboardGrab);
    proof {
        assert(r@ =~= spec_acquisition_order().reverse() + seq![
            OverlayResource::PointerGrab,
            OverlayResource::KeyboardGrab,
        ]);
    }
    r
}

} // verus!
