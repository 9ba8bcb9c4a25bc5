//! Verified string helpers: equality and prefix tests over character views,
//! decimal formatting, percent-encoding, and URL trimming.

use vstd::prelude::*;
use vstd::string::*;

verus! {

/// Whether `p` is a prefix of `s`, over character sequences.
pub open spec fn spec_starts_with(s: Seq<char>, p: Seq<char>) -> bool {
    p.len() <= s.len() && s.subrange(0, p.len() as int) == p
}

/// String-slice equality, decided by comparing the owned copies.
pub fn str_eq(a: &str, b: &str) -> (r: bool)
    ensures
        r == (a@ == b@),
{
    let sa: String = a.to_owned();
    let sb: String = b.to_owned();
    sa == sb
}

/// Whether `s` starts with the prefix `p`, counted in characters.
pub fn str_starts_with(s: &str, p: &str) -> (r: bool)
    ensures
        r == spec_starts_with(s@, p@),
{
    let sl = s.unicode_len();
    let pl = p.unicode_len();
    if pl > sl {
        return false;
    }
    let pre = s.substring_char(0, pl);
    let r = str_eq(pre, p);
    proof {
        if r {
            assert(s@.subrange(0, p@.len() as int) == p@);
        }
    }
    r
}

/// The decimal digit `d` as a character, for `0 <= d <= 9`.
pub open spec fn spec_digit_char(d: int) -> char {
    if d == 0 {
        '0'
    } else if d == 1 {
        '1'
    } else if d == 2 {
        '2'
    } else if d == 3 {
        '3'
    } else if d == 4 {
        '4'
    } else if d == 5 {
        '5'
    } else if d == 6 {
        '6'
    } else if d == 7 {
        '7'
    } else if d == 8 {
        '8'
    } else {
        '9'
    }
}

/// The decimal representation of a non-negative integer, most significant
/// digit first.
pub open spec fn spec_u64_dec(n: int) -> Seq<char>
    decreases n,
{
    if n < 10 {
        seq![spec_digit_char(n)]
    } else {
        spec_u64_dec(n / 10).push(spec_digit_char(n % 10))
    }
}

fn digit_str(d: u64) -> (r: &'static str)
    requires
        d <= 9,
    ensures
        r@ == seq![spec_digit_char(d as int)],
{
    proof {
        reveal_strlit("0");
        reveal_strlit("1");
        reveal_strlit("2");
        reveal_strlit("3");
        reveal_strlit("4");
        reveal_strlit("5");
        reveal_strlit("6");
        reveal_strlit("7");
        reveal_strlit("8");
        reveal_strlit("9");
    }
    let r = if d == 0 {
        "0"
    } else if d == 1 {
        "1"
    } else if d == 2 {
        "2"
    } else if d == 3 {
        "3"
    } else if d == 4 {
        "4"
    } else if d == 5 {
        "5"
    } else if d == 6 {
        "6"
    } else if d == 7 {
        "7"
    } else if d == 8 {
        "8"
    } else {
        "9"
    };
    proof {
        assert(r@ =~= seq![spec_digit_char(d as int)]);
    }
    r
}

/// Formats `n` in decimal.
pub fn u64_to_dec(n: u64) -> (s: String)
    ensures
        s@ == spec_u64_dec(n as int),
    decreases n,
{
    if n < 10 {
        String::from_str(digit_str(n))
    } else {
        let pre = u64_to_dec(n / 10);
        let s = pre.concat(digit_str(n % 10));
        proof {
            assert(s@ =~= spec_u64_dec(n as int / 10).push(spec_digit_char(n as int % 10)));
        }
        s
    }
}

/// Bytes that percent-encoding leaves as they are: ASCII letters, digits,
/// `-`, `_`, `.`, `~`, and `:`.
pub open spec fn spec_unreserved(b: u8) -> bool {
    (65 <= b && b <= 90) || (97 <= b && b <= 122) || (48 <= b && b <= 57) || b == 45 || b == 95
        || b == 46 || b == 126 || b == 58
}

/// The ASCII byte of the uppercase hexadecimal digit `d`, for `0 <= d <= 15`.
pub open spec fn spec_hex_byte(d: int) -> u8 {
    if d < 10 {
        (48 + d) as u8
    } else {
        (55 + d) as u8
    }
}

/// The percent-encoding of one byte: the byte itself if unreserved, else
/// `%` followed by two uppercase hexadecimal digits.
pub open spec fn spec_encode_byte(b: u8) -> Seq<u8> {
    if spec_unreserved(b) {
        seq![b]
    } else {
        seq![37u8, spec_hex_byte(b as int / 16), spec_hex_byte(b as int % 16)]
    }
}

/// The percent-encoding of a byte sequence.
pub open spec fn spec_urlencode(bs: Seq<u8>) -> Seq<u8>
    decreases bs.len(),
{
    if bs.len() == 0 {
        Seq::empty()
    } else {
        spec_encode_byte(bs[0]) + spec_urlencode(bs.drop_first())
    }
}

/// A byte sequence read as characters, defined for ASCII bytes.
pub open spec fn spec_ascii_chars(bs: Seq<u8>) -> Seq<char> {
    bs.map_values(|b: u8| b as char)
}

proof fn lemma_urlencode_snoc(bs: Seq<u8>, b: u8)
    ensures
        spec_urlencode(bs.push(b)) == spec_urlencode(bs) + spec_encode_byte(b),
    decreases bs.len(),
{
    let t = bs.push(b);
    assert(t.len() > 0);
    assert(t[0] == if bs.len() == 0 {
        b
    } else {
        bs[0]
    });
    assert(spec_urlencode(t) == spec_encode_byte(t[0]) + spec_urlencode(t.drop_first()));
    if bs.len() == 0 {
        assert(t.drop_first() =~= Seq::<u8>::empty());
        assert(spec_urlencode(Seq::<u8>::empty()) == Seq::<u8>::empty());
        assert(spec_urlencode(t) =~= spec_urlencode(bs) + spec_encode_byte(b));
    } else {
        assert(t.drop_first() =~= bs.drop_first().push(b));
        lemma_urlencode_snoc(bs.drop_first(), b);
        assert(spec_urlencode(t.drop_first()) == spec_urlencode(bs.drop_first())
            + spec_encode_byte(b));
        assert(spec_urlencode(bs) == spec_encode_byte(bs[0]) + spec_urlencode(bs.drop_first()));
        assert(spec_urlencode(t) =~= spec_urlencode(bs) + spec_encode_byte(b));
    }
}

proof fn lemma_urlencode_ascii(bs: Seq<u8>)
    ensures
        forall|i: int| 0 <= i < spec_urlencode(bs).len() ==> spec_urlencode(bs)[i] < 128,
    decreases bs.len(),
{
    if bs.len() > 0 {
        lemma_urlencode_ascii(bs.drop_first());
        assert(forall|i: int|
            0 <= i < spec_encode_byte(bs[0]).len() ==> spec_encode_byte(bs[0])[i] < 128);
        assert(spec_urlencode(bs) == spec_encode_byte(bs[0]) + spec_urlencode(bs.drop_first()));
    }
}

/// Builds a `String` from ASCII bytes.
///
/// Relies on `String::from_utf8`: ASCII bytes are valid UTF-8 and decode to
/// one character per byte, each with the byte's own code point.
#[verifier::external_body]
fn ascii_to_string(bytes: Vec<u8>) -> (s: String)
    requires
        forall|i: int| 0 <= i < bytes@.len() ==> bytes@[i] < 128,
    ensures
        s@ == spec_ascii_chars(bytes@),
{
    String::from_utf8(bytes).unwrap_or_default()
}

fn hex_byte(d: u8) -> (r: u8)
    requires
        d <= 15,
    ensures
        r == spec_hex_byte(d as int),
{
    if d < 10 {
        48 + d
    } else {
        55 + d
    }
}

fn is_unreserved(b: u8) -> (r: bool)
    ensures
        r == spec_unreserved(b),
{
    (65 <= b && b <= 90) || (97 <= b && b <= 122) || (48 <= b && b <= 57) || b == 45 || b == 95
        || b == 46 || b == 126 || b == 58
}

/// Percent-encodes `s` for use in a URL path segment: every byte of the
/// UTF-8 encoding is kept if unreserved and written as `%XX` otherwise.
pub fn urlencoded(s: &str) -> (r: String)
    ensures
        r@ == spec_ascii_chars(spec_urlencode(s.spec_bytes())),
{
    let bytes = s.as_bytes_vec();
    let mut out: Vec<u8> = Vec::new();
    let mut i: usize = 0;
    while i < bytes.len()
        invariant
            i <= bytes@.len(),
            bytes@ == s.spec_bytes(),
            out@ == spec_urlencode(bytes@.subrange(0, i as int)),
        decreases bytes@.len() - i,
    {
        let b = bytes[i];
        proof {
            assert(bytes@.subrange(0, i as int).push(b) =~= bytes@.subrange(0, i + 1 as int));
            lemma_urlencode_snoc(bytes@.subrange(0, i as int), b);
        }
        if is_unreserved(b) {
            out.push(b);
        } else {
            out.push(37);
            out.push(hex_byte(b / 16));
            out.push(hex_byte(b % 16));
        }
        proof {
            assert(out@ =~= spec_urlencode(bytes@.subrange(0, i + 1 as int)));
        }
        i = i + 1;
    }
    proof {
        assert(bytes@.subrange(0, bytes@.len() as int) =~= bytes@);
        lemma_urlencode_ascii(bytes@);
    }
    ascii_to_string(out)
}

/// `s` with every trailing `/` removed.
pub open spec fn spec_trim_trailing_slashes(s: Seq<char>) -> Seq<char>
    decreases s.len(),
{
    if s.len() > 0 && s.last() == '/' {
        spec_trim_trailing_slashes(s.drop_last())
    } else {
        s
    }
}

/// Removes every trailing `/` from `s`.
pub fn trim_trailing_slashes(s: &str) -> (r: String)
    ensures
        r@ == spec_trim_trailing_slashes(s@),
{
    let mut end = s.unicode_len();
    proof {
        assert(s@.subrange(0, end as int) =~= s@);
    }
    while end > 0 && s.get_char(end - 1) == '/'
        invariant
            end <= s@.len(),
            spec_trim_trailing_slashes(s@) == spec_trim_trailing_slashes(
                s@.subrange(0, end as int),
            ),
        decreases end,
    {
        proof {
            assert(s@.subrange(0, end as int).last() == '/');
            assert(s@.subrange(0, end as int).drop_last() =~= s@.subrange(0, end - 1));
        }
        end = end - 1;
    }
    let r = String::from_str(s.substring_char(0, end));
    proof {
        if end > 0 {
            assert(s@.subrange(0, end as int).last() != '/');
        }
        assert(spec_trim_trailing_slashes(s@.subrange(0, end as int)) == s@.subrange(
            0,
            end as int,
        ));
    }
    r
}

} // verus!
