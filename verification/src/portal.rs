//! Pure parts of the portal-based backend: the screenshot response hands
//! back a file URI, and an explicit-region request crops the decoded full
//! capture in memory.

use vstd::prelude::*;

use crate::errors::CaptureError;
use crate::geometry::Region;
use crate::pixels::{
    clamp_extent, clamp_origin, crop, crop_bounds, spec_crop, PixelBuffer,
};

verus! {

/// The local path of a `file://` URI, as the portal returns one; a URI
/// without that scheme prefix is handed back unchanged.
pub open spec fn spec_file_uri_path(uri: Seq<char>) -> Seq<char> {
    if uri.len() >= 7 && uri.subrange(0, 7) == "file://"@ {
        uri.subrange(7, uri.len() as int)
    } else {
        uri
    }
}

/// Strip the `file://` scheme off the portal's response URI.
pub fn file_uri_path(uri: &str) -> (r: String)
    ensures
        r@ == spec_file_uri_path(uri@),
{
    let n = uri.unicode_len();
    if n >= 7 {
        let head = uri.substring_char(0, 7);
        if crate::text::str_eq(head, "file://") {
            let tail = uri.substring_char(7, n);
            return String::from_str(tail);
        }
    }
    String::from_str(uri)
}

/// Crop a decoded full-screen portal capture to an explicit region request:
/// the rectangle is clamped against the image's actual bounds, an empty
/// clamped area is a bounds error, and the result holds exactly the clamped
/// rectangle's pixels.
pub fn portal_crop(full: &PixelBuffer, region: Region) -> (r: Result<PixelBuffer, CaptureError>)
    requires
        full.wf(),
    ensures
        ({
            let cx = clamp_origin(region.x as int);
            let cy = clamp_origin(region.y as int);
            let cw = clamp_extent(region.width as int, full.width as int, cx);
            let ch = clamp_extent(region.height as int, full.height as int, cy);
            &&& (r is Ok <==> cw > 0 && ch > 0)
            &&& (r matches Ok(out) ==> out.wf() && out.width == cw && out.height == ch
                && out.data@ == spec_crop(full.data@, full.width as int, cx, cy, cw, ch))
            &&& (r matches Err(e) ==> e is RegionOutOfBounds)
        }),
{
    let (x, y, w, h) = match crop_bounds(region, full.width, full.height) {
        Ok(t) => t,
        Err(e) => {
            return Err(e);
        },
    };
    Ok(crop(full, x, y, w, h))
}

} // verus!
