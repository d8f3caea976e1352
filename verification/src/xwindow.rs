//! Pure decisions of the X-based backend around windows and visuals: reading
//! the active-window property, translating a window's geometry into
//! root-window coordinates, and searching the compositing extension's format
//! list for usable visuals.

use vstd::prelude::*;

use crate::errors::CaptureError;
use crate::geometry::Region;

verus! {

/// The 32-bit word at the front of a property value, least significant byte
/// first.
pub open spec fn spec_u32_le(b: Seq<u8>) -> int
    recommends
        b.len() >= 4,
{
    b[0] + b[1] * 0x100 + b[2] * 0x10000 + b[3] * 0x1000000
}

/// Read the session's active-window identifier out of the root window's
/// active-window property value: fails when the property is absent (fewer
/// than four bytes) or names window zero.
pub fn active_window_from_property(value: &Vec<u8>) -> (r: Result<u32, CaptureError>)
    ensures
        r is Ok <==> value@.len() >= 4 && spec_u32_le(value@) != 0,
        r matches Ok(id) ==> id == spec_u32_le(value@),
        r matches Err(e) ==> e is NoActiveWindow,
{
    if value.len() < 4 {
        return Err(CaptureError::NoActiveWindow);
    }
    let id: u32 = value[0] as u32 + value[1] as u32 * 0x100 + value[2] as u32 * 0x10000 + value[3]
        as u32 * 0x1000000;
    if id == 0 {
        return Err(CaptureError::NoActiveWindow);
    }
    Ok(id)
}

/// The capture rectangle of a window whose origin was translated into
/// root-window coordinates (accounting for reparenting and decorations) and
/// whose geometry reports the given size.
pub fn window_capture_region(dst_x: i16, dst_y: i16, width: u16, height: u16) -> (r: Region)
    ensures
        r.x == dst_x as int,
        r.y == dst_y as int,
        r.width == width as int,
        r.height == height as int,
{
    Region { x: dst_x as i32, y: dst_y as i32, width: width as u32, height: height as u32 }
}

/// One visual of the compositing extension's format listing, flattened out
/// of its screen/depth nesting in listing order.
#[derive(Debug, Clone, Copy, PartialEq, Eq, Structural)]
pub struct PictVisual {
    /// The visual's identifier.
    pub visual: u32,
    /// The depth, in bits, under which the visual was listed.
    pub depth: u8,
    /// The picture format associated with the visual.
    pub format: u32,
}

/// `pv` is a 32-bit visual also allowed by the screen (its identifier occurs
/// in the screen's 32-bit-depth visual list).
pub open spec fn argb_match(pv: PictVisual, screen32: Seq<u32>) -> bool {
    pv.depth == 32 && screen32.contains(pv.visual)
}

/// Find a 32-bit alpha-capable visual and its picture format: the first
/// listed visual of depth 32 whose identifier the screen also allows at
/// depth 32.  With none, the dimming blend is impossible and the capture
/// fails before the interactive loop starts.
pub fn find_argb_visual_and_format(pict: &Vec<PictVisual>, screen32: &Vec<u32>) -> (r: Result<
    (u32, u8, u32),
    CaptureError,
>)
    ensures
        r is Ok <==> exists|i: int| 0 <= i < pict@.len() && argb_match(pict@[i], screen32@),
        r matches Ok((visual, depth, format)) ==> depth == 32 && exists|i: int|
            0 <= i < pict@.len() && argb_match(pict@[i], screen32@) && visual == pict@[i].visual
                && format == pict@[i].format && forall|j: int|
                0 <= j < i ==> !argb_match(pict@[j], screen32@),
        r matches Err(e) ==> e is NoCompatibleVisual,
{
    let n = pict.len();
    let mut i: usize = 0;
    while i < n
        invariant
            n == pict@.len(),
            i <= n,
            forall|j: int| 0 <= j < i ==> !argb_match(pict@[j], screen32@),
        decreases n - i,
    {
        let pv = pict[i];
        if pv.depth == 32 && contains_u32(screen32, pv.visual) {
            return Ok((pv.visual, 32, pv.format));
        }
        i = i + 1;
    }
    Err(CaptureError::NoCompatibleVisual)
}

/// Find the picture format of a given visual: the first entry of the format
/// listing naming that visual.
pub fn find_pictformat_for_visual(pict: &Vec<PictVisual>, visual: u32) -> (r: Result<
    u32,
    CaptureError,
>)
    ensures
        r is Ok <==> exists|i: int| 0 <= i < pict@.len() && pict@[i].visual == visual,
        r matches Ok(format) ==> exists|i: int|
            0 <= i < pict@.len() && pict@[i].visual == visual && format == pict@[i].format
                && forall|j: int| 0 <= j < i ==> pict@[j].visual != visual,
        r matches Err(e) ==> e is ProtocolRequestFailed,
{
    let n = pict.len();
    let mut i: usize = 0;
    while i < n
        invariant
            n == pict@.len(),
            i <= n,
            forall|j: int| 0 <= j < i ==> pict@[j].visual != visual,
        decreases n - i,
    {
        let pv = pict[i];
        if pv.visual == visual {
            return Ok(pv.format);
        }
        i = i + 1;
    }
    Err(
        CaptureError::ProtocolRequestFailed(
            crate::pixels::string_lit("query_pict_formats"),
            crate::pixels::string_lit("no pictformat for visual"),
        ),
    )
}

fn contains_u32(v: &Vec<u32>, x: u32) -> (r: bool)
    ensures
        r == v@.contains(x),
{
    let n = v.len();
    let mut i: usize = 0;
    while i < n
        invariant
            n == v@.len(),
            i <= n,
            forall|j: int| 0 <= j < i ==> v@[j] != x,
        decreases n - i,
    {
        if v[i] == x {
            return true;
        }
        i = i + 1;
    }
    proof {
        assert(!v@.contains(x));
    }
    false
}

} // verus!
