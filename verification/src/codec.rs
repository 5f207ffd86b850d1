//! The strict field codecs: clock durations, hex colors, truth flags, and
//! optional numeric fields. These fail closed: malformed input is reported
//! as a typed error, never silently defaulted.

use vstd::prelude::*;

use crate::chars::all_dec_digits;
use crate::chars::check_dec_digit;
use crate::chars::check_ws_char;
use crate::chars::dec_digit_value;
use crate::chars::digits_val;
use crate::chars::hex_char_upper;
use crate::chars::hex_digit_val;
use crate::chars::hex_digit_value;
use crate::chars::hex_digit_str;
use crate::chars::is_dec_digit;
use crate::chars::is_hex_digit;
use crate::chars::is_ws_char;
use crate::chars::lemma_digits_val_prefix_le;
use crate::chars::lemma_digits_val_step;
use crate::chars::spec_decimal;
use crate::chars::to_upper_hex;
use crate::chars::u32_decimal_string;
use crate::Error;

verus! {

/// `s` without its longest all-whitespace prefix.
pub open spec fn spec_trim_start(s: Seq<char>) -> Seq<char>
    decreases s.len(),
{
    if s.len() > 0 && is_ws_char(s[0]) {
        spec_trim_start(s.skip(1))
    } else {
        s
    }
}

/// The index of the first colon of `s`, or `s.len()` when there is none.
pub open spec fn first_colon(s: Seq<char>) -> nat
    decreases s.len(),
{
    if s.len() == 0 {
        0
    } else if s[0] == ':' {
        0
    } else {
        1 + first_colon(s.skip(1))
    }
}

/// The value a token decodes to when read as an unsigned decimal integer no
/// larger than `max`: an optional leading plus sign, then at least one
/// decimal digit.
pub open spec fn spec_parse_uint(s: Seq<char>, max: int) -> Option<int> {
    let d = if s.len() > 0 && s[0] == '+' {
        s.skip(1)
    } else {
        s
    };
    if d.len() > 0 && all_dec_digits(d) && digits_val(d) <= max {
        Some(digits_val(d) as int)
    } else {
        None
    }
}

/// What a clock-duration text decodes to: after trimming leading
/// whitespace, exactly three colon-separated numeric parts (hours, minutes,
/// seconds), worth `hours * 3600 + minutes * 60 + seconds` when that sum is
/// representable. Hours are unbounded by the format, so trips past midnight
/// are representable.
pub open spec fn spec_parse_time(s: Seq<char>) -> Option<u32> {
    let t = spec_trim_start(s);
    let p1 = first_colon(t);
    if p1 >= t.len() {
        None
    } else {
        let part1 = t.take(p1 as int);
        let r1 = t.skip(p1 as int + 1);
        let p2 = first_colon(r1);
        if p2 >= r1.len() {
            None
        } else {
            let part2 = r1.take(p2 as int);
            let r2 = r1.skip(p2 as int + 1);
            if first_colon(r2) < r2.len() {
                None
            } else {
                match (
                    spec_parse_uint(part1, u32::MAX as int),
                    spec_parse_uint(part2, u32::MAX as int),
                    spec_parse_uint(r2, u32::MAX as int),
                ) {
                    (Some(h), Some(m), Some(sec)) => if h * 3600 + m * 60 + sec
                        <= u32::MAX as int {
                        Some((h * 3600 + m * 60 + sec) as u32)
                    } else {
                        None
                    },
                    _ => None,
                }
            }
        }
    }
}

/// Trimming drops exactly the whitespace prefix found by a left-to-right
/// scan.
proof fn lemma_trim_start_skip(s: Seq<char>, i: int)
    requires
        0 <= i <= s.len(),
        forall|j: int| 0 <= j < i ==> is_ws_char(#[trigger] s[j]),
        i == s.len() || !is_ws_char(s[i]),
    ensures
        spec_trim_start(s) == s.skip(i),
    decreases i,
{
    if i == 0 {
        assert(s.skip(0) =~= s);
    } else {
        lemma_trim_start_skip(s.skip(1), i - 1);
        assert(s.skip(1).skip(i - 1) =~= s.skip(i));
    }
}

/// The first colon is exactly where a left-to-right scan finds it.
proof fn lemma_first_colon_at(s: Seq<char>, i: int)
    requires
        0 <= i <= s.len(),
        forall|j: int| 0 <= j < i ==> #[trigger] s[j] != ':',
        i == s.len() || s[i] == ':',
    ensures
        first_colon(s) == i,
    decreases i,
{
    if i > 0 {
        lemma_first_colon_at(s.skip(1), i - 1);
    }
}

/// Reads an unsigned decimal integer token, accepting what the standard
/// library's integer parse accepts for an unsigned type: an optional
/// leading plus sign, then one or more decimal digits, with a value that
/// fits.
fn parse_u32_token(p: &str) -> (r: Option<u32>)
    ensures
        match r {
            Some(v) => spec_parse_uint(p@, u32::MAX as int) == Some(v as int),
            None => spec_parse_uint(p@, u32::MAX as int) is None,
        },
{
    let n = p.unicode_len();
    let start: usize = if n > 0 && p.get_char(0) == '+' {
        1
    } else {
        0
    };
    let ghost d = p@.skip(start as int);
    proof {
        assert(d =~= (if p@.len() > 0 && p@[0] == '+' {
            p@.skip(1)
        } else {
            p@
        }));
    }
    if start == n {
        return None;
    }
    let mut val: u64 = 0;
    let mut i = start;
    while i < n
        invariant
            start <= i <= n,
            n == p@.len(),
            d == p@.skip(start as int),
            d == (if p@.len() > 0 && p@[0] == '+' {
                p@.skip(1)
            } else {
                p@
            }),
            val == digits_val(d.take(i - start)),
            val <= u32::MAX,
            forall|j: int| 0 <= j < i - start ==> is_dec_digit(#[trigger] d[j]),
        decreases n - i,
    {
        let c = p.get_char(i);
        proof {
            assert(p@.skip(start as int)[i - start] == p@[i as int]);
            assert(d[i - start] == c);
        }
        if !check_dec_digit(c) {
            return None;
        }
        let dv = dec_digit_value(c);
        val = val * 10 + dv as u64;
        proof {
            lemma_digits_val_step(d, i - start);
        }
        if val > u32::MAX as u64 {
            proof {
                lemma_digits_val_prefix_le(d, i + 1 - start);
            }
            return None;
        }
        i = i + 1;
    }
    proof {
        assert(d.take(n - start) =~= d);
    }
    Some(val as u32)
}

/// Finds the first colon of `s`, reporting `s`'s length when there is none.
fn find_colon(s: &str) -> (r: usize)
    ensures
        r as nat == first_colon(s@),
        r <= s@.len(),
{
    let n = s.unicode_len();
    let mut j: usize = 0;
    while j < n && s.get_char(j) != ':'
        invariant
            j <= n,
            n == s@.len(),
            forall|k: int| 0 <= k < j ==> #[trigger] s@[k] != ':',
        decreases n - j,
    {
        j = j + 1;
    }
    proof {
        lemma_first_colon_at(s@, j as int);
    }
    j
}

/// Decodes a clock duration `H:MM:SS` (leading whitespace tolerated, hours
/// unbounded by the format) into seconds past midnight. Fails closed, as
/// [`spec_parse_time`] says, on any other token count, a non-numeric part,
/// or a value that does not fit.
pub fn parse_time(s: &str) -> (r: Result<u32, Error>)
    ensures
        match r {
            Ok(v) => spec_parse_time(s@) == Some(v),
            Err(e) => spec_parse_time(s@) is None && (e matches Error::InvalidTime(t) && t@
                == s@),
        },
{
    let n = s.unicode_len();
    let mut i: usize = 0;
    while i < n && check_ws_char(s.get_char(i))
        invariant
            i <= n,
            n == s@.len(),
            forall|j: int| 0 <= j < i ==> is_ws_char(#[trigger] s@[j]),
        decreases n - i,
    {
        i = i + 1;
    }
    proof {
        lemma_trim_start_skip(s@, i as int);
    }
    let t = s.substring_char(i, n);
    proof {
        assert(t@ =~= s@.skip(i as int));
    }
    let tn = n - i;
    let p1 = find_colon(t);
    if p1 >= tn {
        return Err(Error::InvalidTime(s.to_owned()));
    }
    let part1 = t.substring_char(0, p1);
    let rest1 = t.substring_char(p1 + 1, tn);
    proof {
        assert(part1@ =~= t@.take(p1 as int));
        assert(rest1@ =~= t@.skip(p1 as int + 1));
    }
    let r1n = tn - (p1 + 1);
    let p2 = find_colon(rest1);
    if p2 >= r1n {
        return Err(Error::InvalidTime(s.to_owned()));
    }
    let part2 = rest1.substring_char(0, p2);
    let rest2 = rest1.substring_char(p2 + 1, r1n);
    proof {
        assert(part2@ =~= rest1@.take(p2 as int));
        assert(rest2@ =~= rest1@.skip(p2 as int + 1));
    }
    let r2n = r1n - (p2 + 1);
    let p3 = find_colon(rest2);
    if p3 < r2n {
        return Err(Error::InvalidTime(s.to_owned()));
    }
    match (parse_u32_token(part1), parse_u32_token(part2), parse_u32_token(rest2)) {
        (Some(h), Some(m), Some(sec)) => {
            let total = h as u64 * 3600 + m as u64 * 60 + sec as u64;
            if total <= u32::MAX as u64 {
                Ok(total as u32)
            } else {
                Err(Error::InvalidTime(s.to_owned()))
            }
        },
        _ => Err(Error::InvalidTime(s.to_owned())),
    }
}

/// Every well-formed duration `H:MM:SS` whose minute and second values are
/// below sixty decodes to `H * 3600 + MM * 60 + SS`, whatever digit strings
/// spell the three parts, as long as the total fits the result type.
pub proof fn lemma_parse_time_of_parts(hs: Seq<char>, ms: Seq<char>, ss: Seq<char>)
    requires
        hs.len() > 0,
        ms.len() > 0,
        ss.len() > 0,
        all_dec_digits(hs),
        all_dec_digits(ms),
        all_dec_digits(ss),
        digits_val(ms) < 60,
        digits_val(ss) < 60,
        digits_val(hs) * 3600 + 3599 <= u32::MAX,
    ensures
        spec_parse_time(hs + seq![':'] + ms + seq![':'] + ss) == Some(
            ((digits_val(hs) * 3600 + digits_val(ms) * 60 + digits_val(ss)) as u32),
        ),
{
    let s = hs + seq![':'] + ms + seq![':'] + ss;
    assert(s[0] == hs[0]);
    assert(!is_ws_char(s[0]));
    assert(spec_trim_start(s) == s);
    let hn = hs.len() as int;
    let mn = ms.len() as int;
    assert forall|j: int| 0 <= j < hn implies #[trigger] s[j] != ':' by {
        assert(s[j] == hs[j]);
    }
    assert(s[hn] == ':');
    lemma_first_colon_at(s, hn);
    let part1 = s.take(hn);
    let r1 = s.skip(hn + 1);
    assert(part1 =~= hs);
    assert(r1 =~= ms + seq![':'] + ss);
    assert forall|j: int| 0 <= j < mn implies #[trigger] r1[j] != ':' by {
        assert(r1[j] == ms[j]);
    }
    assert(r1[mn] == ':');
    lemma_first_colon_at(r1, mn);
    let part2 = r1.take(mn);
    let r2 = r1.skip(mn + 1);
    assert(part2 =~= ms);
    assert(r2 =~= ss);
    assert forall|j: int| 0 <= j < ss.len() implies #[trigger] ss[j] != ':' by {}
    lemma_first_colon_at(ss, ss.len() as int);
    assert(hs[0] != '+');
    assert(ms[0] != '+');
    assert(ss[0] != '+');
    let h = digits_val(hs) as int;
    let m = digits_val(ms) as int;
    let sec = digits_val(ss) as int;
    assert(h <= u32::MAX as int) by {
        assert(h * 3600 + 3599 <= u32::MAX as int);
        assert(h <= h * 3600) by (nonlinear_arith)
            requires
                h >= 0,
        ;
    }
    assert(spec_parse_uint(hs, u32::MAX as int) == Some(h));
    assert(spec_parse_uint(ms, u32::MAX as int) == Some(m));
    assert(spec_parse_uint(ss, u32::MAX as int) == Some(sec));
    assert(h * 3600 + m * 60 + sec <= u32::MAX as int);
}

/// Emits a duration as bare decimal seconds. This is intentionally
/// asymmetric with [`parse_time`], which expects colon-separated text: the
/// encoded form feeds a different downstream consumer, and the asymmetry is
/// preserved as found.
pub fn encode_clock_duration(seconds: u32) -> (r: String)
    ensures
        r@ == spec_decimal(seconds as nat),
{
    u32_decimal_string(seconds)
}

/// One color channel pair of eight bits each: a color is exactly three such
/// channels.
#[derive(Debug, Copy, Clone, PartialEq, Eq, Structural)]
pub struct Rgb {
    pub r: u8,
    pub g: u8,
    pub b: u8,
}

/// What a color text decodes to: exactly six hexadecimal characters, two
/// per channel; anything else fails.
pub open spec fn spec_decode_color(s: Seq<char>) -> Option<Rgb> {
    if s.len() == 6 && is_hex_digit(s[0]) && is_hex_digit(s[1]) && is_hex_digit(s[2])
        && is_hex_digit(s[3]) && is_hex_digit(s[4]) && is_hex_digit(s[5]) {
        Some(
            Rgb {
                r: (hex_digit_val(s[0]) * 16 + hex_digit_val(s[1])) as u8,
                g: (hex_digit_val(s[2]) * 16 + hex_digit_val(s[3])) as u8,
                b: (hex_digit_val(s[4]) * 16 + hex_digit_val(s[5])) as u8,
            },
        )
    } else {
        None
    }
}

/// The canonical encoding of a color: two uppercase hexadecimal digits per
/// channel.
pub open spec fn spec_encode_color(c: Rgb) -> Seq<char> {
    seq![
        hex_char_upper((c.r / 16) as nat),
        hex_char_upper((c.r % 16) as nat),
        hex_char_upper((c.g / 16) as nat),
        hex_char_upper((c.g % 16) as nat),
        hex_char_upper((c.b / 16) as nat),
        hex_char_upper((c.b % 16) as nat),
    ]
}

/// Decodes a six-hex-digit color text into its three channels.
pub fn parse_color(s: &str) -> (r: Result<Rgb, Error>)
    ensures
        match r {
            Ok(c) => spec_decode_color(s@) == Some(c),
            Err(e) => spec_decode_color(s@) is None && (e matches Error::InvalidColor(t) && t@
                == s@),
        },
{
    let n = s.unicode_len();
    if n != 6 {
        return Err(Error::InvalidColor(s.to_owned()));
    }
    let d0 = hex_digit_value(s.get_char(0));
    let d1 = hex_digit_value(s.get_char(1));
    let d2 = hex_digit_value(s.get_char(2));
    let d3 = hex_digit_value(s.get_char(3));
    let d4 = hex_digit_value(s.get_char(4));
    let d5 = hex_digit_value(s.get_char(5));
    match (d0, d1, d2, d3, d4, d5) {
        (Some(a), Some(b), Some(c), Some(d), Some(e), Some(f)) => Ok(
            Rgb { r: a * 16 + b, g: c * 16 + d, b: e * 16 + f },
        ),
        _ => Err(Error::InvalidColor(s.to_owned())),
    }
}

/// Encodes a color as six uppercase hexadecimal characters.
pub fn encode_color(c: &Rgb) -> (r: String)
    ensures
        r@ == spec_encode_color(*c),
{
    let mut out = String::new();
    out.append(hex_digit_str(c.r / 16));
    out.append(hex_digit_str(c.r % 16));
    out.append(hex_digit_str(c.g / 16));
    out.append(hex_digit_str(c.g % 16));
    out.append(hex_digit_str(c.b / 16));
    out.append(hex_digit_str(c.b % 16));
    proof {
        assert(out@ =~= spec_encode_color(*c));
    }
    out
}

/// A packed pair of hexadecimal digit values unpacks to the same two
/// values.
proof fn lemma_hex_pair_unpack(x: int, y: int)
    requires
        0 <= x < 16,
        0 <= y < 16,
    ensures
        (x * 16 + y) / 16 == x,
        (x * 16 + y) % 16 == y,
{
    assert((x * 16 + y) / 16 == x && (x * 16 + y) % 16 == y) by (nonlinear_arith)
        requires
            0 <= x < 16 && 0 <= y < 16,
    ;
}

/// The canonical character of a hexadecimal digit's value is the digit's
/// uppercase form.
proof fn lemma_hex_upper_char(c: char)
    requires
        is_hex_digit(c),
    ensures
        hex_char_upper(hex_digit_val(c)) == to_upper_hex(c),
        hex_digit_val(c) < 16,
{
}

/// Decoding any six-hex-digit text and re-encoding the result reproduces
/// the text in its canonical uppercase form.
#[verifier::rlimit(50)]
pub proof fn lemma_color_round_trip(s: Seq<char>)
    requires
        s.len() == 6,
        forall|i: int| 0 <= i < 6 ==> is_hex_digit(#[trigger] s[i]),
    ensures
        spec_decode_color(s) matches Some(c) && spec_encode_color(c) =~= Seq::new(
            6,
            |i: int| to_upper_hex(s[i]),
        ),
{
    assert(is_hex_digit(s[0]) && is_hex_digit(s[1]) && is_hex_digit(s[2]) && is_hex_digit(s[3])
        && is_hex_digit(s[4]) && is_hex_digit(s[5]));
    lemma_hex_upper_char(s[0]);
    lemma_hex_upper_char(s[1]);
    lemma_hex_upper_char(s[2]);
    lemma_hex_upper_char(s[3]);
    lemma_hex_upper_char(s[4]);
    lemma_hex_upper_char(s[5]);
    lemma_hex_pair_unpack(hex_digit_val(s[0]) as int, hex_digit_val(s[1]) as int);
    lemma_hex_pair_unpack(hex_digit_val(s[2]) as int, hex_digit_val(s[3]) as int);
    lemma_hex_pair_unpack(hex_digit_val(s[4]) as int, hex_digit_val(s[5]) as int);
    let c = spec_decode_color(s)->Some_0;
    let t = Seq::new(6, |i: int| to_upper_hex(s[i]));
    assert(c.r as int == hex_digit_val(s[0]) * 16 + hex_digit_val(s[1]));
    assert(c.g as int == hex_digit_val(s[2]) * 16 + hex_digit_val(s[3]));
    assert(c.b as int == hex_digit_val(s[4]) * 16 + hex_digit_val(s[5]));
    assert(spec_encode_color(c)[0] == t[0]);
    assert(spec_encode_color(c)[1] == t[1]);
    assert(spec_encode_color(c)[2] == t[2]);
    assert(spec_encode_color(c)[3] == t[3]);
    assert(spec_encode_color(c)[4] == t[4]);
    assert(spec_encode_color(c)[5] == t[5]);
}

/// What a truth-flag text decodes to: exactly "0" or "1", with no coercion
/// of any other text.
pub open spec fn spec_decode_truth(s: Seq<char>) -> Option<bool> {
    if s.len() == 1 && s[0] == '0' {
        Some(false)
    } else if s.len() == 1 && s[0] == '1' {
        Some(true)
    } else {
        None
    }
}

/// Decodes a strict boolean flag.
pub fn decode_truth_flag(s: &str) -> (r: Result<bool, Error>)
    ensures
        match r {
            Ok(v) => spec_decode_truth(s@) == Some(v),
            Err(e) => spec_decode_truth(s@) is None && (e matches Error::Decode(t) && t@ == s@),
        },
{
    let n = s.unicode_len();
    if n == 1 {
        let c = s.get_char(0);
        if c == '0' {
            return Ok(false);
        }
        if c == '1' {
            return Ok(true);
        }
    }
    Err(Error::Decode(s.to_owned()))
}

/// Encodes a boolean flag as "1" or "0".
pub fn encode_truth_flag(v: bool) -> (r: String)
    ensures
        v ==> r@ == "1"@,
        !v ==> r@ == "0"@,
{
    if v {
        String::from_str("1")
    } else {
        String::from_str("0")
    }
}

/// The default of a flag whose absence means yes, such as a stop time's
/// timepoint marker.
pub fn bool_default_true() -> (r: bool)
    ensures
        r,
{
    true
}

/// The view of an optional borrowed text: the text's characters when it is
/// present.
pub open spec fn opt_str_view(s: Option<&str>) -> Option<Seq<char>> {
    match s {
        None => None,
        Some(t) => Some(t@),
    }
}

/// Whether `s` is blank: empty or all whitespace.
pub open spec fn spec_is_blank(s: Seq<char>) -> bool {
    forall|i: int| 0 <= i < s.len() ==> is_ws_char(#[trigger] s[i])
}

/// Tests whether `s` is blank.
fn check_blank(s: &str) -> (r: bool)
    ensures
        r == spec_is_blank(s@),
{
    let n = s.unicode_len();
    let mut i: usize = 0;
    while i < n && check_ws_char(s.get_char(i))
        invariant
            i <= n,
            n == s@.len(),
            forall|j: int| 0 <= j < i ==> is_ws_char(#[trigger] s@[j]),
        decreases n - i,
    {
        i = i + 1;
    }
    i == n
}

/// Decodes an optional numeric field: blank text is the absent value, and
/// anything else must parse strictly as an unsigned decimal integer.
pub fn decode_optional_u32(s: &str) -> (r: Result<Option<u32>, Error>)
    ensures
        match r {
            Ok(opt) => match opt {
                None => spec_is_blank(s@),
                Some(v) => !spec_is_blank(s@) && spec_parse_uint(s@, u32::MAX as int) == Some(
                    v as int,
                ),
            },
            Err(e) => !spec_is_blank(s@) && spec_parse_uint(s@, u32::MAX as int) is None && (
            e matches Error::Decode(t) && t@ == s@),
        },
{
    if check_blank(s) {
        return Ok(None);
    }
    match parse_u32_token(s) {
        Some(v) => Ok(Some(v)),
        None => Err(Error::Decode(s.to_owned())),
    }
}

/// Decodes an optional numeric field into a sixteen-bit value; the bound is
/// part of the strict parse.
pub fn decode_optional_u16(s: &str) -> (r: Result<Option<u16>, Error>)
    ensures
        match r {
            Ok(opt) => match opt {
                None => spec_is_blank(s@),
                Some(v) => !spec_is_blank(s@) && spec_parse_uint(s@, u16::MAX as int) == Some(
                    v as int,
                ),
            },
            Err(e) => !spec_is_blank(s@) && spec_parse_uint(s@, u16::MAX as int) is None && (
            e matches Error::Decode(t) && t@ == s@),
        },
{
    if check_blank(s) {
        return Ok(None);
    }
    match parse_u32_token(s) {
        Some(v) => if v <= u16::MAX as u32 {
            Ok(Some(v as u16))
        } else {
            Err(Error::Decode(s.to_owned()))
        },
        None => Err(Error::Decode(s.to_owned())),
    }
}

} // verus!
