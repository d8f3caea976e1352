//! Pure rectangle geometry: the `Region` type and normalisation of a drag
//! selection into a clamped, non-negative rectangle.

use vstd::prelude::*;

use crate::text::{
    is_signed_numeral, is_unsigned_numeral, lemma_concat_no_char, lemma_split_no_sep,
    lemma_split_prepend_token, lemma_trim_no_space, parse_i32, parse_u32, signed_value, spec_split,
    spec_trim, split2, trim, unsigned_value,
};

verus! {

/// A rectangular area of the virtual screen.  `x` and `y` may be negative
/// (coordinates left of or above the first monitor); `width` and `height` are
/// attempted-capture sizes, not guaranteed on-screen sizes.
#[derive(Debug, Clone, Copy, PartialEq, Eq, Structural)]
pub struct Region {
    pub x: i32,
    pub y: i32,
    pub width: u32,
    pub height: u32,
}

pub open spec fn min_int(a: int, b: int) -> int {
    if a <= b {
        a
    } else {
        b
    }
}

pub open spec fn max_int(a: int, b: int) -> int {
    if a >= b {
        a
    } else {
        b
    }
}

/// The selection rectangle obtained by normalising the two drag corners
/// `(x0, y0)` and `(x1, y1)` against a screen of `sw` by `sh` pixels: the
/// origin is the componentwise minimum clamped to zero, the far corner is the
/// componentwise maximum clamped to the screen size, and the extent is never
/// negative.
pub open spec fn spec_selection(x0: int, y0: int, x1: int, y1: int, sw: int, sh: int) -> Region {
    let lx = max_int(min_int(x0, x1), 0);
    let ly = max_int(min_int(y0, y1), 0);
    let rx = min_int(max_int(x0, x1), sw);
    let ry = min_int(max_int(y0, y1), sh);
    Region {
        x: lx as i32,
        y: ly as i32,
        width: max_int(rx - lx, 0) as u32,
        height: max_int(ry - ly, 0) as u32,
    }
}

/// Normalise a drag given by its start and current corner into the selection
/// rectangle, clamped to a `sw` by `sh` screen.  The corners may be given in
/// either order.
pub fn compute_selection(x0: i16, y0: i16, x1: i16, y1: i16, sw: u16, sh: u16) -> (r: Region)
    ensures
        r == spec_selection(x0 as int, y0 as int, x1 as int, y1 as int, sw as int, sh as int),
{
    let x0: i32 = x0 as i32;
    let y0: i32 = y0 as i32;
    let x1: i32 = x1 as i32;
    let y1: i32 = y1 as i32;
    let sw: i32 = sw as i32;
    let sh: i32 = sh as i32;
    let lx: i32 = if x0 <= x1 { x0 } else { x1 };
    let lx: i32 = if lx >= 0 { lx } else { 0 };
    let ly: i32 = if y0 <= y1 { y0 } else { y1 };
    let ly: i32 = if ly >= 0 { ly } else { 0 };
    let rx: i32 = if x0 >= x1 { x0 } else { x1 };
    let rx: i32 = if rx <= sw { rx } else { sw };
    let ry: i32 = if y0 >= y1 { y0 } else { y1 };
    let ry: i32 = if ry <= sh { ry } else { sh };
    let w: i32 = if rx - lx >= 0 { rx - lx } else { 0 };
    let h: i32 = if ry - ly >= 0 { ry - ly } else { 0 };
    Region { x: lx, y: ly, width: w as u32, height: h as u32 }
}

/// Normalisation is commutative in its two corner arguments: the selection of
/// `(p0, p1)` equals the selection of `(p1, p0)`.
pub proof fn lemma_selection_commutes(x0: int, y0: int, x1: int, y1: int, sw: int, sh: int)
    ensures
        spec_selection(x0, y0, x1, y1, sw, sh) == spec_selection(x1, y1, x0, y0, sw, sh),
{
}

/// Normalisation always yields a non-negative origin, and clamps the extent so
/// that a non-empty selection lies entirely within the screen bounds, for all
/// corner pairs, including corners outside `[0, bounds)`.
pub proof fn lemma_selection_clamped(x0: int, y0: int, x1: int, y1: int, sw: int, sh: int)
    requires
        0 <= sw <= u16::MAX,
        0 <= sh <= u16::MAX,
        i16::MIN <= x0 <= i16::MAX,
        i16::MIN <= y0 <= i16::MAX,
        i16::MIN <= x1 <= i16::MAX,
        i16::MIN <= y1 <= i16::MAX,
    ensures
        ({
            let r = spec_selection(x0, y0, x1, y1, sw, sh);
            &&& r.x >= 0
            &&& r.y >= 0
            &&& r.width <= sw
            &&& r.height <= sh
            &&& r.width > 0 ==> r.x + r.width <= sw
            &&& r.height > 0 ==> r.y + r.height <= sh
        }),
{
}

/// Some character of `s` is `c`.
pub open spec fn seq_contains_char(s: Seq<char>, c: char) -> bool {
    exists|i: int| 0 <= i < s.len() && s[i] == c
}

fn contains_char(s: &str, c: char) -> (r: bool)
    ensures
        r == seq_contains_char(s@, c),
{
    let n = s.unicode_len();
    let mut i: usize = 0;
    while i < n
        invariant
            n == s@.len(),
            i <= n,
            forall|k: int| 0 <= k < i ==> s@[k] != c,
        decreases n - i,
    {
        if s.get_char(i) == c {
            return true;
        }
        i = i + 1;
    }
    false
}

/// A signed field parses as an `i32`.
pub open spec fn field_i32_ok(t: Seq<char>) -> bool {
    is_signed_numeral(t) && i32::MIN <= signed_value(t) <= i32::MAX
}

/// An unsigned field parses as a `u32`.
pub open spec fn field_u32_ok(t: Seq<char>) -> bool {
    is_unsigned_numeral(t) && unsigned_value(t) <= u32::MAX
}

/// The result of parsing a rectangle string against the `WxH+X+Y` grammar,
/// given its four separator-delimited fields: width, height, then signed x
/// and y.  The first field that fails to parse names the error.
pub open spec fn spec_parse_whxy(fs: Seq<Seq<char>>) -> Result<Region, Seq<char>>
    recommends
        fs.len() == 4,
{
    if !field_u32_ok(fs[0]) {
        Err("invalid width"@)
    } else if !field_u32_ok(fs[1]) {
        Err("invalid height"@)
    } else if !field_i32_ok(fs[2]) {
        Err("invalid x"@)
    } else if !field_i32_ok(fs[3]) {
        Err("invalid y"@)
    } else {
        Ok(
            Region {
                x: signed_value(fs[2]) as i32,
                y: signed_value(fs[3]) as i32,
                width: unsigned_value(fs[0]) as u32,
                height: unsigned_value(fs[1]) as u32,
            },
        )
    }
}

/// The result of parsing a rectangle string against the `X,Y,W,H` grammar,
/// given its four comma-delimited fields, each trimmed of surrounding
/// whitespace: signed x and y, then width and height.
pub open spec fn spec_parse_xywh(fs: Seq<Seq<char>>) -> Result<Region, Seq<char>>
    recommends
        fs.len() == 4,
{
    if !field_i32_ok(spec_trim(fs[0])) {
        Err("invalid x"@)
    } else if !field_i32_ok(spec_trim(fs[1])) {
        Err("invalid y"@)
    } else if !field_u32_ok(spec_trim(fs[2])) {
        Err("invalid width"@)
    } else if !field_u32_ok(spec_trim(fs[3])) {
        Err("invalid height"@)
    } else {
        Ok(
            Region {
                x: signed_value(spec_trim(fs[0])) as i32,
                y: signed_value(spec_trim(fs[1])) as i32,
                width: unsigned_value(spec_trim(fs[2])) as u32,
                height: unsigned_value(spec_trim(fs[3])) as u32,
            },
        )
    }
}

/// The catch-all parse error for a string matching neither grammar.
pub open spec fn spec_format_error(s: Seq<char>) -> Seq<char> {
    "invalid region format: '"@ + s + "'. use: X,Y,W,H or WxH+X+Y"@
}

/// What parsing a rectangle string yields: the `WxH+X+Y` grammar is tried
/// when the string contains both an `x` and a `+` and splits into exactly
/// four fields; otherwise the string must split on commas into exactly four
/// fields of the `X,Y,W,H` grammar; any other shape is rejected with an
/// error naming the offending field, or the format as a whole.
pub open spec fn spec_parse_region(s: Seq<char>) -> Result<Region, Seq<char>> {
    let wh_fields = spec_split(s, 'x', '+');
    let comma_fields = spec_split(s, ',', ',');
    if seq_contains_char(s, 'x') && seq_contains_char(s, '+') && wh_fields.len() == 4 {
        spec_parse_whxy(wh_fields)
    } else if comma_fields.len() == 4 {
        spec_parse_xywh(comma_fields)
    } else {
        Err(spec_format_error(s))
    }
}

/// Parse a rectangle string such as `"100,200,800,600"` or
/// `"800x600+100+200"`.
pub fn parse_region(s: &str) -> (r: Result<Region, String>)
    ensures
        r is Ok <==> spec_parse_region(s@) is Ok,
        r matches Ok(reg) ==> spec_parse_region(s@) == Ok::<Region, Seq<char>>(reg),
        r matches Err(e) ==> spec_parse_region(s@) matches Err(m) && e@ == m,
{
    if contains_char(s, 'x') && contains_char(s, '+') {
        let parts = split2(s, 'x', '+');
        proof {
            assert(parts@.map_values(|t: String| t@).len() == parts@.len());
        }
        if parts.len() == 4 {
            let ghost fs = spec_split(s@, 'x', '+');
            proof {
                assert(fs[0] == parts@.map_values(|t: String| t@)[0]);
                assert(fs[1] == parts@.map_values(|t: String| t@)[1]);
                assert(fs[2] == parts@.map_values(|t: String| t@)[2]);
                assert(fs[3] == parts@.map_values(|t: String| t@)[3]);
            }
            let width = match parse_u32(parts[0].as_str()) {
                Some(v) => v,
                None => {
                    return Err(String::from_str("invalid width"));
                },
            };
            let height = match parse_u32(parts[1].as_str()) {
                Some(v) => v,
                None => {
                    return Err(String::from_str("invalid height"));
                },
            };
            let x = match parse_i32(parts[2].as_str()) {
                Some(v) => v,
                None => {
                    return Err(String::from_str("invalid x"));
                },
            };
            let y = match parse_i32(parts[3].as_str()) {
                Some(v) => v,
                None => {
                    return Err(String::from_str("invalid y"));
                },
            };
            return Ok(Region { x, y, width, height });
        }
    }
    let parts = split2(s, ',', ',');
    proof {
        assert(parts@.map_values(|t: String| t@).len() == parts@.len());
    }
    if parts.len() == 4 {
        let ghost fs = spec_split(s@, ',', ',');
        proof {
            assert(fs[0] == parts@.map_values(|t: String| t@)[0]);
            assert(fs[1] == parts@.map_values(|t: String| t@)[1]);
            assert(fs[2] == parts@.map_values(|t: String| t@)[2]);
            assert(fs[3] == parts@.map_values(|t: String| t@)[3]);
        }
        let x = match parse_i32(trim(parts[0].as_str())) {
            Some(v) => v,
            None => {
                return Err(String::from_str("invalid x"));
            },
        };
        let y = match parse_i32(trim(parts[1].as_str())) {
            Some(v) => v,
            None => {
                return Err(String::from_str("invalid y"));
            },
        };
        let width = match parse_u32(trim(parts[2].as_str())) {
            Some(v) => v,
            None => {
                return Err(String::from_str("invalid width"));
            },
        };
        let height = match parse_u32(trim(parts[3].as_str())) {
            Some(v) => v,
            None => {
                return Err(String::from_str("invalid height"));
            },
        };
        return Ok(Region { x, y, width, height });
    }
    let mut msg = String::from_str("invalid region format: '");
    msg.append(s);
    msg.append("'. use: X,Y,W,H or WxH+X+Y");
    Err(msg)
}

/// `t` holds none of the three separator characters of the two rectangle
/// grammars, nor any whitespace.
pub open spec fn plain_field(t: Seq<char>) -> bool {
    forall|i: int|
        0 <= i < t.len() ==> t[i] != 'x' && t[i] != '+' && t[i] != ','
            && !crate::text::is_space(t[i])
}

/// The two rectangle grammars are equivalent for equivalent values: four
/// fields rendered as `W x H + X + Y` and as `X , Y , W , H` parse to the
/// same rectangle, whenever each field is a plain numeral free of separator
/// and whitespace characters.
pub proof fn lemma_grammar_equivalence(tx: Seq<char>, ty: Seq<char>, tw: Seq<char>, th: Seq<char>)
    requires
        field_i32_ok(tx),
        field_i32_ok(ty),
        field_u32_ok(tw),
        field_u32_ok(th),
        plain_field(tx),
        plain_field(ty),
        plain_field(tw),
        plain_field(th),
    ensures
        ({
            let r = Region {
                x: signed_value(tx) as i32,
                y: signed_value(ty) as i32,
                width: unsigned_value(tw) as u32,
                height: unsigned_value(th) as u32,
            };
            &&& spec_parse_region(tw + seq!['x'] + (th + seq!['+'] + (tx + seq!['+'] + ty)))
                == Ok::<Region, Seq<char>>(r)
            &&& spec_parse_region(tx + seq![','] + (ty + seq![','] + (tw + seq![','] + th)))
                == Ok::<Region, Seq<char>>(r)
        }),
{
    let r = Region {
        x: signed_value(tx) as i32,
        y: signed_value(ty) as i32,
        width: unsigned_value(tw) as u32,
        height: unsigned_value(th) as u32,
    };
    // The WxH+X+Y rendering.
    let rest2 = tx + seq!['+'] + ty;
    let rest1 = th + seq!['+'] + rest2;
    let s1 = tw + seq!['x'] + rest1;
    lemma_split_no_sep(ty, 'x', '+');
    lemma_split_prepend_token(tx, '+', ty, 'x', '+');
    lemma_split_prepend_token(th, '+', rest2, 'x', '+');
    lemma_split_prepend_token(tw, 'x', rest1, 'x', '+');
    assert(spec_split(s1, 'x', '+') =~~= seq![tw, th, tx, ty]);
    assert(s1[tw.len() as int] == 'x') by {
        assert((tw + seq!['x'])[tw.len() as int] == 'x');
        assert(s1[tw.len() as int] == (tw + seq!['x'])[tw.len() as int]);
    }
    assert(seq_contains_char(s1, 'x'));
    assert(s1[tw.len() as int + 1 + th.len() as int] == '+') by {
        assert(s1[tw.len() as int + 1 + th.len() as int] == rest1[th.len() as int]);
        assert(rest1[th.len() as int] == (th + seq!['+'])[th.len() as int]);
    }
    assert(seq_contains_char(s1, '+'));
    assert(spec_parse_whxy(seq![tw, th, tx, ty]) == Ok::<Region, Seq<char>>(r)) by {
        assert(seq![tw, th, tx, ty][0] == tw);
        assert(seq![tw, th, tx, ty][1] == th);
        assert(seq![tw, th, tx, ty][2] == tx);
        assert(seq![tw, th, tx, ty][3] == ty);
    }
    // The X,Y,W,H rendering.
    let crest2 = tw + seq![','] + th;
    let crest1 = ty + seq![','] + crest2;
    let s2 = tx + seq![','] + crest1;
    lemma_split_no_sep(th, ',', ',');
    lemma_split_prepend_token(tw, ',', th, ',', ',');
    lemma_split_prepend_token(ty, ',', crest2, ',', ',');
    lemma_split_prepend_token(tx, ',', crest1, ',', ',');
    assert(spec_split(s2, ',', ',') =~~= seq![tx, ty, tw, th]);
    assert(!seq_contains_char(s2, 'x')) by {
        lemma_concat_no_char(tw, seq![','], 'x');
        lemma_concat_no_char(tw + seq![','], th, 'x');
        assert(crest2 =~= tw + seq![','] + th);
        lemma_concat_no_char(ty, seq![','], 'x');
        lemma_concat_no_char(ty + seq![','], crest2, 'x');
        assert(crest1 =~= ty + seq![','] + crest2);
        lemma_concat_no_char(tx, seq![','], 'x');
        lemma_concat_no_char(tx + seq![','], crest1, 'x');
        assert(s2 =~= tx + seq![','] + crest1);
    }
    lemma_trim_no_space(tx);
    lemma_trim_no_space(ty);
    lemma_trim_no_space(tw);
    lemma_trim_no_space(th);
    assert(spec_parse_xywh(seq![tx, ty, tw, th]) == Ok::<Region, Seq<char>>(r)) by {
        assert(seq![tx, ty, tw, th][0] == tx);
        assert(seq![tx, ty, tw, th][1] == ty);
        assert(seq![tx, ty, tw, th][2] == tw);
        assert(seq![tx, ty, tw, th][3] == th);
    }
}

} // verus!
