//! Small verified text utilities: string equality, whitespace trimming,
//! separator splitting and decimal numeral parsing, shared by the rectangle
//! grammar and the display resolver.

use vstd::prelude::*;

verus! {

/// Character-for-character string equality.
pub fn str_eq(a: &str, b: &str) -> (r: bool)
    ensures
        r <==> a@ == b@,
{
    let na = a.unicode_len();
    let nb = b.unicode_len();
    if na != nb {
        return false;
    }
    let mut i: usize = 0;
    while i < na
        invariant
            na == a@.len(),
            na == b@.len(),
            i <= na,
            forall|k: int| 0 <= k < i ==> a@[k] == b@[k],
        decreases na - i,
    {
        if a.get_char(i) != b.get_char(i) {
            return false;
        }
        i = i + 1;
    }
    proof {
        assert(a@ =~= b@);
    }
    true
}

/// The ASCII whitespace characters stripped by trimming.
pub open spec fn is_space(c: char) -> bool {
    c == ' ' || c == '\t' || c == '\n' || c == '\r' || c == '\u{b}' || c == '\u{c}'
}

pub open spec fn spec_trim_front(s: Seq<char>) -> Seq<char>
    decreases s.len(),
{
    if s.len() > 0 && is_space(s[0]) {
        spec_trim_front(s.drop_first())
    } else {
        s
    }
}

pub open spec fn spec_trim_back(s: Seq<char>) -> Seq<char>
    decreases s.len(),
{
    if s.len() > 0 && is_space(s.last()) {
        spec_trim_back(s.drop_last())
    } else {
        s
    }
}

/// `s` without leading and trailing ASCII whitespace.
pub open spec fn spec_trim(s: Seq<char>) -> Seq<char> {
    spec_trim_back(spec_trim_front(s))
}

proof fn lemma_trim_front_subrange(s: Seq<char>, k: int)
    requires
        0 <= k <= s.len(),
        forall|m: int| 0 <= m < k ==> is_space(s[m]),
        k < s.len() ==> !is_space(s[k]),
    ensures
        spec_trim_front(s) == s.subrange(k, s.len() as int),
    decreases k,
{
    if k == 0 {
        assert(s.subrange(0, s.len() as int) =~= s);
    } else {
        let t = s.drop_first();
        lemma_trim_front_subrange(t, k - 1);
        assert(t.subrange(k - 1, t.len() as int) =~= s.subrange(k, s.len() as int));
    }
}

proof fn lemma_trim_back_subrange(s: Seq<char>, k: int)
    requires
        0 <= k <= s.len(),
        forall|m: int| k <= m < s.len() ==> is_space(s[m]),
        k > 0 ==> !is_space(s[k - 1]),
    ensures
        spec_trim_back(s) == s.subrange(0, k),
    decreases s.len() - k,
{
    if k == s.len() {
        assert(s.subrange(0, s.len() as int) =~= s);
    } else {
        let t = s.drop_last();
        lemma_trim_back_subrange(t, k);
        assert(t.subrange(0, k) =~= s.subrange(0, k));
    }
}

/// Strip leading and trailing ASCII whitespace.
pub fn trim(s: &str) -> (r: &str)
    ensures
        r@ == spec_trim(s@),
{
    let n = s.unicode_len();
    let mut i: usize = 0;
    while i < n && is_space_exec(s.get_char(i))
        invariant
            n == s@.len(),
            i <= n,
            forall|m: int| 0 <= m < i ==> is_space(s@[m]),
        decreases n - i,
    {
        i = i + 1;
    }
    let mut j: usize = n;
    while j > i && is_space_exec(s.get_char(j - 1))
        invariant
            n == s@.len(),
            i <= j <= n,
            forall|m: int| 0 <= m < i ==> is_space(s@[m]),
            i < n ==> !is_space(s@[i as int]),
            forall|m: int| j <= m < n ==> is_space(s@[m]),
        decreases j,
    {
        j = j - 1;
    }
    proof {
        lemma_trim_front_subrange(s@, i as int);
        let f = s@.subrange(i as int, n as int);
        lemma_trim_back_subrange(f, j - i);
        assert(f.subrange(0, j - i) =~= s@.subrange(i as int, j as int));
    }
    s.substring_char(i, j)
}

fn is_space_exec(c: char) -> (r: bool)
    ensures
        r == is_space(c),
{
    c == ' ' || c == '\t' || c == '\n' || c == '\r' || c == '\u{b}' || c == '\u{c}'
}

/// Split `s` at every occurrence of `sep1` or `sep2`, keeping empty fields,
/// as the standard splitter does: splitting the empty string yields one empty
/// field.
pub open spec fn spec_split(s: Seq<char>, sep1: char, sep2: char) -> Seq<Seq<char>>
    decreases s.len(),
{
    if s.len() == 0 {
        seq![Seq::<char>::empty()]
    } else if s[0] == sep1 || s[0] == sep2 {
        seq![Seq::<char>::empty()] + spec_split(s.drop_first(), sep1, sep2)
    } else {
        let rest = spec_split(s.drop_first(), sep1, sep2);
        seq![seq![s[0]] + rest[0]] + rest.drop_first()
    }
}

pub proof fn lemma_split_nonempty(s: Seq<char>, sep1: char, sep2: char)
    ensures
        spec_split(s, sep1, sep2).len() >= 1,
    decreases s.len(),
{
    if s.len() > 0 {
        lemma_split_nonempty(s.drop_first(), sep1, sep2);
    }
}

/// A token without separators splits into itself alone.
pub proof fn lemma_split_no_sep(t: Seq<char>, sep1: char, sep2: char)
    requires
        forall|i: int| 0 <= i < t.len() ==> t[i] != sep1 && t[i] != sep2,
    ensures
        spec_split(t, sep1, sep2) == seq![t],
    decreases t.len(),
{
    if t.len() == 0 {
        assert(spec_split(t, sep1, sep2) =~~= seq![t]);
    } else {
        lemma_split_no_sep(t.drop_first(), sep1, sep2);
        assert(spec_split(t, sep1, sep2) =~~= seq![t]);
    }
}

/// Splitting a separator-free token, a separator, and a remainder yields the
/// token as the first field, then the remainder's fields.
pub proof fn lemma_split_prepend_token(
    t: Seq<char>,
    sep: char,
    rest: Seq<char>,
    sep1: char,
    sep2: char,
)
    requires
        forall|i: int| 0 <= i < t.len() ==> t[i] != sep1 && t[i] != sep2,
        sep == sep1 || sep == sep2,
    ensures
        spec_split(t + seq![sep] + rest, sep1, sep2) == seq![t] + spec_split(rest, sep1, sep2),
    decreases t.len(),
{
    let s = t + seq![sep] + rest;
    if t.len() == 0 {
        assert(s[0] == sep);
        assert(s.drop_first() =~= rest);
        assert(spec_split(s, sep1, sep2) =~~= seq![t] + spec_split(rest, sep1, sep2));
    } else {
        assert(s[0] == t[0]);
        assert(s.drop_first() =~= t.drop_first() + seq![sep] + rest);
        lemma_split_prepend_token(t.drop_first(), sep, rest, sep1, sep2);
        let r = spec_split(s.drop_first(), sep1, sep2);
        lemma_split_nonempty(rest, sep1, sep2);
        assert(r[0] == t.drop_first());
        assert(r.drop_first() =~~= spec_split(rest, sep1, sep2));
        assert(seq![s[0]] + r[0] =~= t);
        assert(spec_split(s, sep1, sep2) =~~= seq![t] + spec_split(rest, sep1, sep2));
    }
}

/// A character missing from both parts is missing from their concatenation.
pub proof fn lemma_concat_no_char(a: Seq<char>, b: Seq<char>, c: char)
    requires
        forall|i: int| 0 <= i < a.len() ==> a[i] != c,
        forall|i: int| 0 <= i < b.len() ==> b[i] != c,
    ensures
        forall|i: int| 0 <= i < (a + b).len() ==> (a + b)[i] != c,
{
    assert forall|i: int| 0 <= i < (a + b).len() implies (a + b)[i] != c by {
        if i < a.len() {
            assert((a + b)[i] == a[i]);
        } else {
            assert((a + b)[i] == b[i - a.len()]);
        }
    }
}

/// Trimming leaves a string without whitespace unchanged.
pub proof fn lemma_trim_no_space(t: Seq<char>)
    requires
        forall|i: int| 0 <= i < t.len() ==> !is_space(t[i]),
    ensures
        spec_trim(t) == t,
{
}

/// The completed fields of a partial scan, with the unfinished field `cur`
/// prepended to the splits of the unscanned remainder.
spec fn split_shift(sp: Seq<Seq<char>>, cur: Seq<char>) -> Seq<Seq<char>>
    recommends
        sp.len() >= 1,
{
    seq![cur + sp[0]] + sp.drop_first()
}

/// Split `s` at every occurrence of `sep1` or `sep2`.
pub fn split2(s: &str, sep1: char, sep2: char) -> (r: Vec<String>)
    ensures
        r@.map_values(|t: String| t@) == spec_split(s@, sep1, sep2),
{
    let n = s.unicode_len();
    let mut parts: Vec<String> = Vec::new();
    let mut ts: usize = 0;
    let mut i: usize = 0;
    proof {
        assert(s@.subrange(0, n as int) =~= s@);
        assert(parts@.map_values(|t: String| t@) =~= Seq::<Seq<char>>::empty());
        lemma_split_nonempty(s@, sep1, sep2);
        assert(split_shift(spec_split(s@, sep1, sep2), Seq::<char>::empty()) =~= spec_split(
            s@,
            sep1,
            sep2,
        ));
    }
    while i < n
        invariant
            n == s@.len(),
            ts <= i <= n,
            spec_split(s@.subrange(i as int, n as int), sep1, sep2).len() >= 1,
            spec_split(s@, sep1, sep2) == parts@.map_values(|t: String| t@) + split_shift(
                spec_split(s@.subrange(i as int, n as int), sep1, sep2),
                s@.subrange(ts as int, i as int),
            ),
        decreases n - i,
    {
        let c = s.get_char(i);
        let ghost rest = s@.subrange(i as int, n as int);
        let ghost rest1 = s@.subrange(i as int + 1, n as int);
        let ghost cur = s@.subrange(ts as int, i as int);
        proof {
            assert(rest[0] == s@[i as int]);
            assert(rest.drop_first() =~= rest1);
            lemma_split_nonempty(rest1, sep1, sep2);
        }
        if c == sep1 || c == sep2 {
            let field = s.substring_char(ts, i);
            let owned = String::from_str(field);
            proof {
                let f = |t: String| t@;
                let sp1 = spec_split(rest1, sep1, sep2);
                assert(spec_split(rest, sep1, sep2) == seq![Seq::<char>::empty()] + sp1);
                assert(split_shift(seq![Seq::<char>::empty()] + sp1, cur) =~~= seq![cur] + sp1);
                assert(split_shift(sp1, Seq::<char>::empty()) =~~= sp1);
                assert((parts@ + seq![owned]).map_values(f) =~= parts@.map_values(f) + seq![
                    owned@,
                ]);
                assert(parts@.map_values(f) + (seq![cur] + sp1) =~= (parts@.map_values(f) + seq![
                    cur,
                ]) + sp1);
                assert(s@.subrange(i as int + 1, i as int + 1) =~= Seq::<char>::empty());
            }
            parts.push(owned);
            ts = i + 1;
        } else {
            proof {
                let sp1 = spec_split(rest1, sep1, sep2);
                assert(spec_split(rest, sep1, sep2) == seq![seq![rest[0]] + sp1[0]]
                    + sp1.drop_first());
                assert(split_shift(spec_split(rest, sep1, sep2), cur) =~~= split_shift(
                    sp1,
                    cur + seq![s@[i as int]],
                ));
                assert(s@.subrange(ts as int, i as int + 1) =~= cur + seq![s@[i as int]]);
            }
        }
        i = i + 1;
    }
    let field = s.substring_char(ts, n);
    let owned = String::from_str(field);
    proof {
        let f = |t: String| t@;
        let cur = s@.subrange(ts as int, n as int);
        assert(s@.subrange(n as int, n as int) =~= Seq::<char>::empty());
        assert(spec_split(s@.subrange(n as int, n as int), sep1, sep2) == seq![
            Seq::<char>::empty(),
        ]);
        assert(split_shift(seq![Seq::<char>::empty()], cur) =~~= seq![cur]);
        assert((parts@ + seq![owned]).map_values(f) =~= parts@.map_values(f) + seq![owned@]);
    }
    parts.push(owned);
    parts
}

/// Decimal digits and their value, most significant first.
pub open spec fn is_digit_char(c: char) -> bool {
    '0' <= c && c <= '9'
}

pub open spec fn digit_val(c: char) -> int {
    c as int - '0' as int
}

pub open spec fn all_digits(s: Seq<char>) -> bool {
    forall|i: int| 0 <= i < s.len() ==> is_digit_char(s[i])
}

pub open spec fn digits_val(s: Seq<char>) -> int
    decreases s.len(),
{
    if s.len() == 0 {
        0
    } else {
        digits_val(s.drop_last()) * 10 + digit_val(s.last())
    }
}

proof fn lemma_digits_val_nonneg(s: Seq<char>)
    requires
        all_digits(s),
    ensures
        digits_val(s) >= 0,
    decreases s.len(),
{
    if s.len() > 0 {
        assert(all_digits(s.drop_last())) by {
            assert(forall|i: int| 0 <= i < s.len() - 1 ==> s.drop_last()[i] == s[i]);
        }
        lemma_digits_val_nonneg(s.drop_last());
        assert(digits_val(s.drop_last()) * 10 >= 0) by (nonlinear_arith)
            requires digits_val(s.drop_last()) >= 0;
    }
}

proof fn lemma_digits_prefix_le(s: Seq<char>, k: int)
    requires
        all_digits(s),
        0 <= k <= s.len(),
    ensures
        digits_val(s.subrange(0, k)) <= digits_val(s),
    decreases s.len() - k,
{
    if k == s.len() {
        assert(s.subrange(0, k) =~= s);
    } else {
        let p = s.subrange(0, k + 1);
        assert(p.drop_last() =~= s.subrange(0, k));
        assert(all_digits(p)) by {
            assert(forall|i: int| 0 <= i < p.len() ==> p[i] == s[i]);
        }
        lemma_digits_val_nonneg(p.drop_last());
        assert(digits_val(p) == digits_val(p.drop_last()) * 10 + digit_val(p.last()));
        assert(digits_val(p.drop_last()) * 10 >= digits_val(p.drop_last())) by (nonlinear_arith)
            requires digits_val(p.drop_last()) >= 0;
        assert(digit_val(p.last()) >= 0);
        lemma_digits_prefix_le(s, k + 1);
    }
}

/// Parse the digit run `s[from..]` as a decimal value, failing when any
/// character is not a digit, the run is empty, or the value exceeds `max`.
fn parse_digits_bounded(s: &str, from: usize, max: u64) -> (r: Option<u64>)
    requires
        from <= s@.len(),
    ensures
        ({
            let body = s@.subrange(from as int, s@.len() as int);
            match r {
                Option::Some(v) => body.len() > 0 && all_digits(body) && v == digits_val(body)
                    && digits_val(body) <= max,
                Option::None => body.len() == 0 || !all_digits(body) || digits_val(body) > max,
            }
        }),
{
    let n = s.unicode_len();
    if from == n {
        return Option::None;
    }
    let ghost body = s@.subrange(from as int, s@.len() as int);
    let mut acc: u64 = 0;
    let mut i: usize = from;
    while i < n
        invariant
            n == s@.len(),
            from <= i <= n,
            from < n,
            body == s@.subrange(from as int, s@.len() as int),
            all_digits(s@.subrange(from as int, i as int)),
            acc == digits_val(s@.subrange(from as int, i as int)),
            acc <= max,
        decreases n - i,
    {
        let c = s.get_char(i);
        let cu = c as u32;
        if cu < 48 || cu > 57 {
            assert(!all_digits(body)) by {
                assert(body[i - from] == s@[i as int]);
                assert(!is_digit_char(s@[i as int]));
            }
            return Option::None;
        }
        let d: u64 = (cu - 48) as u64;
        let ghost pre = s@.subrange(from as int, i as int);
        let ghost pre1 = s@.subrange(from as int, i as int + 1);
        proof {
            assert(pre1.drop_last() =~= pre);
            assert(pre1.last() == s@[i as int]);
            assert(is_digit_char(s@[i as int]));
            assert(digit_val(s@[i as int]) == d);
            assert(digits_val(pre1) == acc * 10 + d);
        }
        if acc > max / 10 || (acc == max / 10 && d > max % 10) {
            proof {
                assert(acc * 10 + d > max) by (nonlinear_arith)
                    requires
                        acc > max / 10 || (acc == max / 10 && d > max % 10),
                        max / 10 == (max as int) / 10,
                        max % 10 == (max as int) % 10,
                        0 <= d <= 9,
                        acc >= 0,
                        max >= 0,
                ;
                if all_digits(body) {
                    assert(pre1 =~= body.subrange(0, i + 1 - from));
                    lemma_digits_prefix_le(body, i + 1 - from);
                }
            }
            return Option::None;
        }
        proof {
            assert(acc * 10 + d <= max) by (nonlinear_arith)
                requires
                    !(acc > max / 10 || (acc == max / 10 && d > max % 10)),
                    max / 10 == (max as int) / 10,
                    max % 10 == (max as int) % 10,
                    0 <= d <= 9,
                    acc >= 0,
                    max >= 0,
            ;
        }
        acc = acc * 10 + d;
        i = i + 1;
    }
    proof {
        assert(s@.subrange(from as int, n as int) =~= body);
    }
    Option::Some(acc)
}

/// The numeral body after an optional leading `+`.
pub open spec fn unsigned_body(s: Seq<char>) -> Seq<char> {
    if s.len() > 0 && s[0] == '+' {
        s.drop_first()
    } else {
        s
    }
}

/// `s` is a well-formed unsigned decimal numeral: an optional `+`, then one
/// or more digits.
pub open spec fn is_unsigned_numeral(s: Seq<char>) -> bool {
    unsigned_body(s).len() > 0 && all_digits(unsigned_body(s))
}

pub open spec fn unsigned_value(s: Seq<char>) -> int {
    digits_val(unsigned_body(s))
}

/// The numeral body after an optional leading `+` or `-`.
pub open spec fn signed_body(s: Seq<char>) -> Seq<char> {
    if s.len() > 0 && (s[0] == '+' || s[0] == '-') {
        s.drop_first()
    } else {
        s
    }
}

/// `s` is a well-formed signed decimal numeral: an optional sign, then one
/// or more digits.
pub open spec fn is_signed_numeral(s: Seq<char>) -> bool {
    signed_body(s).len() > 0 && all_digits(signed_body(s))
}

pub open spec fn signed_value(s: Seq<char>) -> int {
    if s.len() > 0 && s[0] == '-' {
        -digits_val(signed_body(s))
    } else {
        digits_val(signed_body(s))
    }
}

/// Parse an unsigned numeral bounded by `max`, as the standard unsigned
/// parsers do: an optional `+`, one or more digits, and failure on any other
/// shape or on a value above `max`.
fn parse_unsigned_bounded(s: &str, max: u64) -> (r: Option<u64>)
    ensures
        match r {
            Option::Some(v) => is_unsigned_numeral(s@) && v == unsigned_value(s@)
                && unsigned_value(s@) <= max,
            Option::None => !is_unsigned_numeral(s@) || unsigned_value(s@) > max,
        },
{
    let n = s.unicode_len();
    let from: usize = if n > 0 && s.get_char(0) == '+' {
        1
    } else {
        0
    };
    proof {
        assert(unsigned_body(s@) =~= s@.subrange(from as int, s@.len() as int));
    }
    parse_digits_bounded(s, from, max)
}

/// Parse an unsigned numeral into a `u32`, with standard-library semantics.
pub fn parse_u32(s: &str) -> (r: Option<u32>)
    ensures
        match r {
            Option::Some(v) => is_unsigned_numeral(s@) && v == unsigned_value(s@)
                && unsigned_value(s@) <= u32::MAX,
            Option::None => !is_unsigned_numeral(s@) || unsigned_value(s@) > u32::MAX,
        },
{
    match parse_unsigned_bounded(s, 0xffff_ffff) {
        Option::Some(v) => Option::Some(v as u32),
        Option::None => Option::None,
    }
}

/// Parse an unsigned numeral into a `usize`, with standard-library
/// semantics.
pub fn parse_usize(s: &str) -> (r: Option<usize>)
    ensures
        match r {
            Option::Some(v) => is_unsigned_numeral(s@) && v == unsigned_value(s@)
                && unsigned_value(s@) <= usize::MAX,
            Option::None => !is_unsigned_numeral(s@) || unsigned_value(s@) > usize::MAX,
        },
{
    if usize::BITS == 64 {
        match parse_unsigned_bounded(s, u64::MAX) {
            Option::Some(v) => Option::Some(v as usize),
            Option::None => Option::None,
        }
    } else {
        match parse_unsigned_bounded(s, 0xffff_ffff) {
            Option::Some(v) => {
                if v <= usize::MAX as u64 {
                    Option::Some(v as usize)
                } else {
                    Option::None
                }
            },
            Option::None => Option::None,
        }
    }
}

/// Parse a signed numeral into an `i32`, with standard-library semantics: an
/// optional sign, one or more digits, and failure outside the `i32` range.
pub fn parse_i32(s: &str) -> (r: Option<i32>)
    ensures
        match r {
            Option::Some(v) => is_signed_numeral(s@) && v == signed_value(s@) && i32::MIN
                <= signed_value(s@) <= i32::MAX,
            Option::None => !is_signed_numeral(s@) || signed_value(s@) < i32::MIN || signed_value(
                s@,
            ) > i32::MAX,
        },
{
    let n = s.unicode_len();
    let neg = n > 0 && s.get_char(0) == '-';
    let from: usize = if n > 0 && (s.get_char(0) == '+' || s.get_char(0) == '-') {
        1
    } else {
        0
    };
    proof {
        assert(signed_body(s@) =~= s@.subrange(from as int, s@.len() as int));
    }
    let max: u64 = if neg {
        0x8000_0000
    } else {
        0x7fff_ffff
    };
    match parse_digits_bounded(s, from, max) {
        Option::Some(v) => {
            if neg {
                if v == 0x8000_0000 {
                    Option::Some(i32::MIN)
                } else {
                    Option::Some(-(v as i32))
                }
            } else {
                Option::Some(v as i32)
            }
        },
        Option::None => Option::None,
    }
}

} // verus!
