//! The canonical pixel buffer and the wire-format conversion: the transport
//! returns raw bytes in the server's reversed-channel order, and swapping the
//! first and third byte of every 4-byte pixel yields canonical RGBA.

use vstd::prelude::*;

use crate::errors::CaptureError;
use crate::geometry::Region;

verus! {

/// A width-by-height RGBA image: 4 bytes per pixel, row-major, no padding.
pub struct PixelBuffer {
    pub width: u32,
    pub height: u32,
    pub data: Vec<u8>,
}

impl PixelBuffer {
    /// The buffer holds exactly `width * height` four-byte pixels.
    pub open spec fn wf(&self) -> bool {
        self.data@.len() == self.width as int * self.height as int * 4
    }

    /// The byte of channel `k` of the pixel at column `i`, row `j`.
    pub open spec fn spec_byte(&self, i: int, j: int, k: int) -> u8 {
        self.data@[(j * self.width as int + i) * 4 + k]
    }
}

/// `s` with the first and third byte of every complete 4-byte group swapped;
/// a trailing partial group is left as it is.
pub open spec fn spec_channel_swap(s: Seq<u8>) -> Seq<u8> {
    Seq::new(
        s.len(),
        |i: int|
            if i + 4 - (i % 4) <= s.len() {
                if i % 4 == 0 {
                    s[i + 2]
                } else if i % 4 == 2 {
                    s[i - 2]
                } else {
                    s[i]
                }
            } else {
                s[i]
            },
    )
}

/// Swap the first and third byte of every complete 4-byte pixel in place,
/// converting between the wire channel order and RGBA.
pub fn channel_swap(data: &mut Vec<u8>)
    ensures
        final(data)@ == spec_channel_swap(old(data)@),
{
    let ghost orig = data@;
    let n = data.len();
    let groups = n / 4;
    let mut g: usize = 0;
    while g < groups
        invariant
            groups == orig.len() / 4,
            n == orig.len(),
            data@.len() == orig.len(),
            g <= groups,
            forall|i: int|
                0 <= i < orig.len() ==> data@[i] == if i < g * 4 {
                    spec_channel_swap(orig)[i]
                } else {
                    orig[i]
                },
        decreases groups - g,
    {
        let base = g * 4;
        assert(base + 3 < n) by {
            assert(groups * 4 <= orig.len());
            assert((g + 1) * 4 <= groups * 4) by (nonlinear_arith)
                requires g < groups;
        };
        let a = data[base];
        let c = data[base + 2];
        data.set(base, c);
        data.set(base + 2, a);
        proof {
            assert forall|i: int| 0 <= i < orig.len() implies data@[i] == (if i < (g + 1) * 4 {
                spec_channel_swap(orig)[i]
            } else {
                orig[i]
            }) by {
                if g * 4 <= i < (g + 1) * 4 {
                    assert(i % 4 == i - g * 4) by (nonlinear_arith)
                        requires g * 4 <= i < (g + 1) * 4;
                    assert(i + 4 - (i % 4) == (g + 1) * 4);
                    assert((g + 1) * 4 <= groups * 4) by (nonlinear_arith)
                        requires g < groups;
                    assert(groups * 4 <= orig.len());
                }
            }
        }
        g = g + 1;
    }
    proof {
        assert(forall|i: int| 0 <= i < orig.len() && i >= groups * 4 ==> #[trigger] spec_channel_swap(
            orig,
        )[i] == orig[i]) by {
            assert forall|i: int| 0 <= i < orig.len() && i >= groups * 4 implies #[trigger] spec_channel_swap(
                orig,
            )[i] == orig[i] by {
                assert(i + 4 - (i % 4) > orig.len()) by (nonlinear_arith)
                    requires
                        orig.len() / 4 * 4 <= i < orig.len(),
                        i % 4 == i - i / 4 * 4,
                        orig.len() % 4 == orig.len() - orig.len() / 4 * 4,
                ;
            }
        }
        assert(data@ =~= spec_channel_swap(orig));
    }
}

/// The channel swap is its own inverse: applying it twice to any byte buffer
/// returns the original bytes.
pub proof fn lemma_channel_swap_involution(s: Seq<u8>)
    ensures
        spec_channel_swap(spec_channel_swap(s)) == s,
{
    assert(spec_channel_swap(spec_channel_swap(s)) =~= s);
}

/// Wrap raw wire bytes as a canonical RGBA buffer: fails unless the byte
/// count is exactly `width * height * 4`, and otherwise swaps every pixel's
/// first and third channel.
pub fn buffer_from_wire(width: u32, height: u32, data: Vec<u8>) -> (r: Result<
    PixelBuffer,
    CaptureError,
>)
    ensures
        r is Ok <==> data@.len() == width as int * height as int * 4,
        r matches Ok(b) ==> b.width == width && b.height == height && b.data@
            == spec_channel_swap(data@) && b.wf(),
        r matches Err(e) ==> e is ProtocolRequestFailed,
{
    proof {
        assert(width as int * height as int * 4 <= u32::MAX as int * u32::MAX as int * 4)
            by (nonlinear_arith)
            requires width as int <= u32::MAX as int, height as int <= u32::MAX as int;
    }
    let expected: u128 = width as u128 * height as u128 * 4;
    if data.len() as u128 != expected {
        return Result::Err(
            CaptureError::ProtocolRequestFailed(
                string_lit("get_image"),
                string_lit("pixel data does not match the requested size"),
            ),
        );
    }
    let mut data = data;
    channel_swap(&mut data);
    Result::Ok(PixelBuffer { width, height, data })
}

/// Copy of a string literal as an owned `String`.
pub fn string_lit(s: &str) -> (r: String)
    ensures
        r@ == s@,
{
    String::from_str(s)
}

/// The bytes of one row of a crop: row `j` of the `w`-wide rectangle at
/// `(x, y)` of an image whose full row width is `fw` pixels.
pub open spec fn spec_crop_row(src: Seq<u8>, fw: int, x: int, y: int, w: int, j: int) -> Seq<u8> {
    src.subrange(((y + j) * fw + x) * 4, ((y + j) * fw + x) * 4 + w * 4)
}

/// The bytes of the `w` by `h` rectangle at `(x, y)`, row by row.
pub open spec fn spec_crop(src: Seq<u8>, fw: int, x: int, y: int, w: int, h: int) -> Seq<u8>
    decreases h,
{
    if h <= 0 {
        Seq::empty()
    } else {
        spec_crop(src, fw, x, y, w, h - 1) + spec_crop_row(src, fw, x, y, w, h - 1)
    }
}

pub proof fn lemma_spec_crop_len(src: Seq<u8>, fw: int, x: int, y: int, w: int, h: int)
    requires
        0 <= x,
        0 <= y,
        0 <= w,
        0 <= h,
        x + w <= fw,
        (y + h) * fw * 4 <= src.len(),
    ensures
        spec_crop(src, fw, x, y, w, h).len() == h * w * 4,
    decreases h,
{
    if h > 0 {
        assert((y + h - 1) * fw * 4 <= (y + h) * fw * 4) by (nonlinear_arith)
            requires 0 <= fw, y + h - 1 <= y + h;
        lemma_spec_crop_len(src, fw, x, y, w, h - 1);
        assert(0 <= ((y + h - 1) * fw + x) * 4 && ((y + h - 1) * fw + x) * 4 + w * 4 <= src.len())
            by (nonlinear_arith)
            requires
                0 <= x,
                0 <= y,
                0 <= w,
                0 < h,
                x + w <= fw,
                (y + h) * fw * 4 <= src.len(),
        ;
        assert(spec_crop_row(src, fw, x, y, w, h - 1).len() == w * 4);
        assert(spec_crop(src, fw, x, y, w, h) == spec_crop(src, fw, x, y, w, h - 1)
            + spec_crop_row(src, fw, x, y, w, h - 1));
        assert(spec_crop(src, fw, x, y, w, h).len() == spec_crop(src, fw, x, y, w, h - 1).len()
            + spec_crop_row(src, fw, x, y, w, h - 1).len());
        assert((h - 1) * w * 4 + w * 4 == h * w * 4) by (nonlinear_arith);
        assert(spec_crop(src, fw, x, y, w, h).len() == h * w * 4);
    } else {
        assert(h * w * 4 == 0) by (nonlinear_arith)
            requires h == 0;
    }
}

/// Cut the `w` by `h` rectangle at `(x, y)` out of a buffer, row by row.
pub fn crop(buf: &PixelBuffer, x: u32, y: u32, w: u32, h: u32) -> (r: PixelBuffer)
    requires
        buf.wf(),
        x + w <= buf.width,
        y + h <= buf.height,
    ensures
        r.width == w,
        r.height == h,
        r.data@ == spec_crop(buf.data@, buf.width as int, x as int, y as int, w as int, h as int),
        r.wf(),
{
    let ghost fw = buf.width as int;
    let fw_exec: u64 = buf.width as u64;
    proof {
        assert((y as int + h as int) * fw * 4 <= fw * buf.height as int * 4) by (nonlinear_arith)
            requires 0 <= fw, 0 <= y as int + h as int <= buf.height as int;
        assert(fw * buf.height as int * 4 == buf.width as int * buf.height as int * 4);
    }
    let total: usize = buf.data.len();
    let mut out: Vec<u8> = Vec::new();
    let mut j: u32 = 0;
    while j < h
        invariant
            buf.wf(),
            x + w <= buf.width,
            y + h <= buf.height,
            fw == buf.width as int,
            fw_exec == buf.width as u64,
            total == buf.data@.len(),
            (y as int + h as int) * fw * 4 <= buf.data@.len(),
            j <= h,
            out@ == spec_crop(buf.data@, fw, x as int, y as int, w as int, j as int),
        decreases h - j,
    {
        let ghost start = ((y as int + j as int) * fw + x as int) * 4;
        proof {
            assert(0 <= start && start + w as int * 4 <= buf.data@.len() && (y as int + j as int)
                * fw <= buf.data@.len() && (y as int + j as int) * fw + x as int
                <= buf.data@.len()) by (nonlinear_arith)
                requires
                    start == ((y as int + j as int) * fw + x as int) * 4,
                    0 <= x as int,
                    0 <= y as int,
                    0 <= j as int,
                    (j as int) < h as int,
                    0 <= w as int,
                    x as int + w as int <= fw,
                    (y as int + h as int) * fw * 4 <= buf.data@.len(),
            ;
        }
        let yj: u64 = y as u64 + j as u64;
        proof {
            assert(yj as int == y as int + j as int);
            assert(fw_exec as int == fw);
            assert(yj as int * (fw_exec as int) <= buf.data@.len());
        }
        let t: u64 = yj * fw_exec;
        proof {
            assert(t as int + x as int <= buf.data@.len());
            assert((t as int + x as int) * 4 == start) by (nonlinear_arith)
                requires
                    t as int == (y as int + j as int) * fw,
                    start == ((y as int + j as int) * fw + x as int) * 4,
            ;
            assert(start <= buf.data@.len());
        }
        let row_start: u64 = (t + x as u64) * 4;
        let mut c: u64 = 0;
        let ghost row_done = out@;
        while c < w as u64 * 4
            invariant
                buf.wf(),
                fw == buf.width as int,
                total == buf.data@.len(),
                0 <= start,
                start + w as int * 4 <= buf.data@.len(),
                start == row_start,
                c <= w as u64 * 4,
                w as u64 * 4 == w as int * 4,
                out@ == row_done + buf.data@.subrange(start, start + c as int),
            decreases w as u64 * 4 - c,
        {
            proof {
                assert(row_start + c < buf.data@.len());
            }
            let idx: usize = (row_start + c) as usize;
            let b = buf.data[idx];
            proof {
                assert(idx == start + c as int);
                assert(b == buf.data@[start + c as int]);
                assert(row_done + buf.data@.subrange(start, start + c as int) + seq![b]
                    =~= row_done + buf.data@.subrange(start, start + c as int + 1));
            }
            out.push(b);
            c = c + 1;
        }
        proof {
            assert(buf.data@.subrange(start, start + w as int * 4) == spec_crop_row(
                buf.data@,
                fw,
                x as int,
                y as int,
                w as int,
                j as int,
            ));
            assert(out@ == spec_crop(buf.data@, fw, x as int, y as int, w as int, j as int + 1));
        }
        j = j + 1;
    }
    proof {
        lemma_spec_crop_len(buf.data@, fw, x as int, y as int, w as int, h as int);
        assert(h as int * w as int * 4 == w as int * h as int * 4) by (nonlinear_arith);
    }
    PixelBuffer { width: w, height: h, data: out }
}

/// A requested origin clamped to be non-negative.
pub open spec fn clamp_origin(v: int) -> int {
    if v > 0 {
        v
    } else {
        0
    }
}

/// A requested extent clamped to what remains of the image past the clamped
/// origin; a negative remainder counts as zero.
pub open spec fn clamp_extent(want: int, full: int, origin: int) -> int {
    let rem = if full - origin >= 0 {
        full - origin
    } else {
        0
    };
    if want <= rem {
        want
    } else {
        rem
    }
}

/// Clamp a requested crop rectangle against the actual size of a captured
/// image, as the portal backend does for explicit-region requests: the
/// origin is clamped to zero, the extent to what remains, and an empty
/// clamped area is a bounds error.
pub fn crop_bounds(region: Region, full_w: u32, full_h: u32) -> (r: Result<
    (u32, u32, u32, u32),
    CaptureError,
>)
    ensures
        ({
            let cx = clamp_origin(region.x as int);
            let cy = clamp_origin(region.y as int);
            let cw = clamp_extent(region.width as int, full_w as int, cx);
            let ch = clamp_extent(region.height as int, full_h as int, cy);
            &&& (r is Ok <==> cw > 0 && ch > 0)
            &&& (r matches Ok((x, y, w, h)) ==> x == cx && y == cy && w == cw && h == ch && x + w
                <= full_w && y + h <= full_h)
            &&& (r matches Err(e) ==> e is RegionOutOfBounds)
        }),
{
    let x: u32 = if region.x > 0 {
        region.x as u32
    } else {
        0
    };
    let y: u32 = if region.y > 0 {
        region.y as u32
    } else {
        0
    };
    let rem_w: u32 = if x <= full_w {
        full_w - x
    } else {
        0
    };
    let rem_h: u32 = if y <= full_h {
        full_h - y
    } else {
        0
    };
    let w: u32 = if region.width <= rem_w {
        region.width
    } else {
        rem_w
    };
    let h: u32 = if region.height <= rem_h {
        region.height
    } else {
        rem_h
    };
    if w == 0 || h == 0 {
        return Result::Err(CaptureError::RegionOutOfBounds);
    }
    Result::Ok((x, y, w, h))
}

} // verus!
