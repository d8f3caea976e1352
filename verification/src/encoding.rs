//! Small encodings around stored captures: hexadecimal identifier suffixes,
//! percent-decoding of gallery request paths, and the base64 data URL a
//! stored image is served as.

use vstd::prelude::*;
use vstd::string::StringSliceAdditionalSpecFns;

verus! {

/// Append one character to a string.
/// Relies on std's `String::push`: it appends exactly the given character.
#[verifier::external_body]
pub(crate) fn push_char(s: &mut String, c: char)
    ensures
        final(s)@ == old(s)@ + seq![c],
{
    s.push(c);
}

/// The lowercase hexadecimal digit of a value below 16.
pub open spec fn spec_hex_digit(d: u8) -> char {
    if d < 10 {
        (d + 48) as char
    } else {
        (d + 87) as char
    }
}

/// A 16-bit value as exactly four lowercase hexadecimal digits, most
/// significant first.
pub open spec fn spec_hex4(n: u16) -> Seq<char> {
    seq![
        spec_hex_digit((n as int / 4096 % 16) as u8),
        spec_hex_digit((n as int / 256 % 16) as u8),
        spec_hex_digit((n as int / 16 % 16) as u8),
        spec_hex_digit((n as int % 16) as u8),
    ]
}

fn hex_digit(d: u8) -> (r: char)
    requires
        d < 16,
    ensures
        r == spec_hex_digit(d),
{
    if d < 10 {
        (d + 48) as char
    } else {
        (d + 87) as char
    }
}

/// Format a 16-bit value as four lowercase hexadecimal digits, as the
/// random suffix of a capture identifier is written.
pub fn hex4(n: u16) -> (r: String)
    ensures
        r@ == spec_hex4(n),
{
    let mut s = String::new();
    push_char(&mut s, hex_digit((n / 4096 % 16) as u8));
    push_char(&mut s, hex_digit((n / 256 % 16) as u8));
    push_char(&mut s, hex_digit((n / 16 % 16) as u8));
    push_char(&mut s, hex_digit((n % 16) as u8));
    proof {
        assert(s@ =~= spec_hex4(n));
    }
    s
}

/// A value below ten as its decimal digit character.
pub open spec fn spec_dec_digit(d: u8) -> char {
    (d + 48) as char
}

/// A byte as its decimal numeral, most significant digit first, with no
/// leading zeroes.
pub open spec fn spec_dec(n: u8) -> Seq<char> {
    if n < 10 {
        seq![spec_dec_digit(n)]
    } else if n < 100 {
        seq![spec_dec_digit((n as int / 10) as u8), spec_dec_digit((n as int % 10) as u8)]
    } else {
        seq![
            spec_dec_digit((n as int / 100) as u8),
            spec_dec_digit((n as int / 10 % 10) as u8),
            spec_dec_digit((n as int % 10) as u8),
        ]
    }
}

/// Format a byte as its decimal numeral.
pub fn dec_string(n: u8) -> (r: String)
    ensures
        r@ == spec_dec(n),
{
    let mut s = String::new();
    if n >= 100 {
        push_char(&mut s, ((n / 100) + 48) as char);
    }
    if n >= 10 {
        push_char(&mut s, ((n / 10 % 10) + 48) as char);
    }
    push_char(&mut s, ((n % 10) + 48) as char);
    proof {
        assert(s@ =~= spec_dec(n));
    }
    s
}

/// The value of one hexadecimal digit byte, or -1 for any other byte.
pub open spec fn spec_hex_val(b: u8) -> int {
    if 48 <= b <= 57 {
        b - 48
    } else if 97 <= b <= 102 {
        b - 87
    } else if 65 <= b <= 70 {
        b - 55
    } else {
        -1
    }
}

/// The byte a two-character escape pair denotes under standard radix-16
/// parsing, which also accepts a leading `+` in place of the first digit;
/// -1 when the pair is not parseable.
pub open spec fn spec_pair_val(hi: u8, lo: u8) -> int {
    if spec_hex_val(hi) >= 0 && spec_hex_val(lo) >= 0 {
        spec_hex_val(hi) * 16 + spec_hex_val(lo)
    } else if hi == 43 && spec_hex_val(lo) >= 0 {
        spec_hex_val(lo)
    } else {
        -1
    }
}

/// Percent-decoding over raw bytes, one byte becoming one character: a `%`
/// followed by a parseable pair becomes the denoted byte; an unparseable
/// pair is kept as its three characters; a `%` cut short by the end of the
/// input pads the missing characters with `0`.
pub open spec fn spec_percent_decode(bytes: Seq<u8>) -> Seq<char>
    decreases bytes.len(),
{
    if bytes.len() == 0 {
        Seq::empty()
    } else if bytes[0] == 37 {
        let hi = if bytes.len() >= 2 {
            bytes[1]
        } else {
            48
        };
        let lo = if bytes.len() >= 3 {
            bytes[2]
        } else {
            48
        };
        let rest = if bytes.len() >= 3 {
            bytes.subrange(3, bytes.len() as int)
        } else {
            Seq::empty()
        };
        if spec_pair_val(hi, lo) >= 0 {
            seq![(spec_pair_val(hi, lo) as u8) as char] + spec_percent_decode(rest)
        } else {
            seq!['%', hi as char, lo as char] + spec_percent_decode(rest)
        }
    } else {
        seq![bytes[0] as char] + spec_percent_decode(bytes.subrange(1, bytes.len() as int))
    }
}

fn hex_val(b: u8) -> (r: i8)
    ensures
        r as int == spec_hex_val(b),
{
    if 48 <= b && b <= 57 {
        (b - 48) as i8
    } else if 97 <= b && b <= 102 {
        (b - 87) as i8
    } else if 65 <= b && b <= 70 {
        (b - 55) as i8
    } else {
        -1
    }
}

fn pair_val(hi: u8, lo: u8) -> (r: i16)
    ensures
        r as int == spec_pair_val(hi, lo),
{
    let h = hex_val(hi);
    let l = hex_val(lo);
    if h >= 0 && l >= 0 {
        h as i16 * 16 + l as i16
    } else if hi == 43 && l >= 0 {
        l as i16
    } else {
        -1
    }
}

/// Percent-decode a request path, byte by byte, as the gallery's URI
/// handler does.
pub fn percent_decode(s: &str) -> (r: String)
    ensures
        r@ == spec_percent_decode(s.spec_bytes()),
{
    let bytes = s.as_bytes_vec();
    let n = bytes.len();
    let mut out = String::new();
    let mut i: usize = 0;
    proof {
        assert(bytes@.subrange(0, n as int) =~= bytes@);
    }
    while i < n
        invariant
            n == bytes@.len(),
            i <= n,
            spec_percent_decode(bytes@) == out@ + spec_percent_decode(
                bytes@.subrange(i as int, n as int),
            ),
        decreases n - i,
    {
        let ghost rest = bytes@.subrange(i as int, n as int);
        let b = bytes[i];
        let rem = n - i;
        if b == 37 {
            let hi = if rem > 1 {
                bytes[i + 1]
            } else {
                48
            };
            let lo = if rem > 2 {
                bytes[i + 2]
            } else {
                48
            };
            let v = pair_val(hi, lo);
            let ghost rest3 = if rest.len() >= 3 {
                rest.subrange(3, rest.len() as int)
            } else {
                Seq::<u8>::empty()
            };
            proof {
                if rem >= 3 {
                    assert(rest3 =~= bytes@.subrange(i as int + 3, n as int));
                } else {
                    assert(rest3 =~= bytes@.subrange(n as int, n as int));
                }
            }
            if v >= 0 {
                push_char(&mut out, (v as u8) as char);
            } else {
                push_char(&mut out, '%');
                push_char(&mut out, hi as char);
                push_char(&mut out, lo as char);
            }
            if rem >= 3 {
                i = i + 3;
            } else {
                i = n;
            }
        } else {
            push_char(&mut out, b as char);
            proof {
                assert(rest.subrange(1, rest.len() as int) =~= bytes@.subrange(
                    i as int + 1,
                    n as int,
                ));
            }
            i = i + 1;
        }
    }
    proof {
        assert(spec_percent_decode(bytes@.subrange(n as int, n as int)) =~= Seq::<char>::empty());
    }
    out
}

/// What base64's standard engine encodes a byte sequence to.  The encoding
/// depends on the bytes alone.
pub uninterp spec fn base64_of(bytes: Seq<u8>) -> Seq<char>;

/// Relies on base64's `Engine::encode` with the `STANDARD` engine: the
/// padded encoding of the bytes, four characters for every three bytes
/// begun.  The engine aborts when the encoded size cannot be computed in a
/// `usize`, so inputs near that bound are excluded.
#[verifier::external_body]
fn base64_encode(bytes: &Vec<u8>) -> (r: String)
    requires
        bytes@.len() < usize::MAX / 4,
    ensures
        r@ == base64_of(bytes@),
        r@.len() == 4 * ((bytes@.len() + 2) / 3),
{
    base64::Engine::encode(&base64::engine::general_purpose::STANDARD, bytes)
}

/// The media type a stored capture is served under, from its recorded
/// format name; anything unrecognised is served as PNG.
pub open spec fn spec_mime_for(format: Seq<char>) -> Seq<char> {
    if format == "png"@ {
        "image/png"@
    } else if format == "jpeg"@ || format == "jpg"@ {
        "image/jpeg"@
    } else if format == "webp"@ {
        "image/webp"@
    } else {
        "image/png"@
    }
}

/// The media type a stored capture is served under.
pub fn mime_for(format: &str) -> (r: &'static str)
    ensures
        r@ == spec_mime_for(format@),
{
    if crate::text::str_eq(format, "png") {
        "image/png"
    } else if crate::text::str_eq(format, "jpeg") || crate::text::str_eq(format, "jpg") {
        "image/jpeg"
    } else if crate::text::str_eq(format, "webp") {
        "image/webp"
    } else {
        "image/png"
    }
}

/// Serve a stored image's bytes as a base64 data URL for its recorded
/// format.
pub fn data_url(format: &str, data: &Vec<u8>) -> (r: String)
    requires
        data@.len() < usize::MAX / 4,
    ensures
        r@ == "data:"@ + spec_mime_for(format@) + ";base64,"@ + base64_of(data@),
{
    let mut s = String::from_str("data:");
    s.append(mime_for(format));
    s.append(";base64,");
    let b64 = base64_encode(data);
    s.append(b64.as_str());
    s
}

} // verus!
