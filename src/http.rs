//! Reading the parts of an HTTP reply that the identity exchange needs: the
//! status code of the status line and the body length of the headers.

use vstd::prelude::*;

use crate::framing::copy_range;

verus! {

/// ASCII whitespace: space, tab, line feed, vertical tab, form feed, return.
pub open spec fn is_space(b: u8) -> bool {
    b == 32 || (9 <= b <= 13)
}

/// The first index from `i` on that holds no whitespace, or the length.
pub open spec fn skip_space(s: Seq<u8>, i: int) -> int
    decreases s.len() - i,
{
    if 0 <= i < s.len() && is_space(s[i]) {
        skip_space(s, i + 1)
    } else {
        i
    }
}

/// The first index from `i` on that holds whitespace, or the length.
pub open spec fn skip_word(s: Seq<u8>, i: int) -> int
    decreases s.len() - i,
{
    if 0 <= i < s.len() && !is_space(s[i]) {
        skip_word(s, i + 1)
    } else {
        i
    }
}

/// The second whitespace-separated field of `s`; empty when there is none.
pub open spec fn second_field(s: Seq<u8>) -> Seq<u8> {
    let b = skip_space(s, skip_word(s, skip_space(s, 0)));
    s.subrange(b, skip_word(s, b))
}

/// The end of `s` without its trailing whitespace, looking from `j` down.
pub open spec fn trim_end(s: Seq<u8>, j: int) -> int
    decreases j,
{
    if 0 < j <= s.len() && is_space(s[j - 1]) {
        trim_end(s, j - 1)
    } else {
        j
    }
}

/// `s` without leading and trailing whitespace.
pub open spec fn trim(s: Seq<u8>) -> Seq<u8> {
    let a = skip_space(s, 0);
    if a >= s.len() {
        Seq::empty()
    } else {
        s.subrange(a, trim_end(s, s.len() as int))
    }
}

/// The number that decimal digits give.
pub open spec fn digits_value(d: Seq<u8>) -> nat
    decreases d.len(),
{
    if d.len() == 0 {
        0
    } else {
        digits_value(d.drop_last()) * 10 + (d.last() - 48) as nat
    }
}

/// Every byte of `d` is an ASCII digit.
pub open spec fn all_digits(d: Seq<u8>) -> bool {
    forall|i: int| 0 <= i < d.len() ==> 48 <= #[trigger] d[i] <= 57
}

/// `s` without one leading plus sign.
pub open spec fn unsigned_digits(s: Seq<u8>) -> Seq<u8> {
    if s.len() > 0 && s[0] == 43 {
        s.subrange(1, s.len() as int)
    } else {
        s
    }
}

/// The number that `s` writes in decimal, with an optional plus sign, when
/// it is at most `max`.
pub open spec fn parse_unsigned_result(s: Seq<u8>, max: nat) -> Option<nat> {
    let d = unsigned_digits(s);
    if d.len() > 0 && all_digits(d) && digits_value(d) <= max {
        Some(digits_value(d))
    } else {
        None
    }
}

proof fn lemma_prefix_value_le(d: Seq<u8>, j: int)
    requires
        0 <= j <= d.len(),
        all_digits(d),
    ensures
        digits_value(d.subrange(0, j)) <= digits_value(d),
    decreases d.len(),
{
    if j < d.len() {
        let e = d.drop_last();
        assert(all_digits(e)) by {
            assert forall|i: int| 0 <= i < e.len() implies 48 <= #[trigger] e[i] <= 57 by {
                assert(e[i] == d[i]);
            }
        }
        lemma_prefix_value_le(e, j);
        assert(e.subrange(0, j) =~= d.subrange(0, j));
    } else {
        assert(d.subrange(0, j) =~= d);
    }
}

/// Reads `s` as an unsigned decimal number no larger than `max`.
pub fn parse_unsigned(s: &[u8], max: u64) -> (r: Option<u64>)
    ensures
        r matches Some(v) ==> parse_unsigned_result(s@, max as nat) == Some(v as nat),
        r is None ==> parse_unsigned_result(s@, max as nat) is None,
{
    let k: usize = if s.len() > 0 && s[0] == 43 {
        1
    } else {
        0
    };
    let ghost d = unsigned_digits(s@);
    assert(d =~= s@.subrange(k as int, s@.len() as int));
    if k >= s.len() {
        return None;
    }
    let mut acc: u64 = 0;
    let mut i: usize = k;
    while i < s.len()
        invariant
            k <= i <= s@.len(),
            d == s@.subrange(k as int, s@.len() as int),
            d == unsigned_digits(s@),
            acc as nat == digits_value(d.subrange(0, i - k)),
            acc <= max,
            all_digits(d.subrange(0, i - k)),
        decreases s@.len() - i,
    {
        let c = s[i];
        if c < 48 || c > 57 {
            assert(d[i - k] == c);
            assert(!all_digits(d));
            return None;
        }
        let dg = (c - 48) as u64;
        let ghost p = d.subrange(0, i - k + 1);
        assert(p.drop_last() =~= d.subrange(0, i - k));
        assert(p.last() == c);
        assert(all_digits(p)) by {
            assert forall|j: int| 0 <= j < p.len() implies 48 <= #[trigger] p[j] <= 57 by {
                if j < p.len() - 1 {
                    assert(p[j] == d.subrange(0, i - k)[j]);
                }
            }
        }
        let fits = if acc > max / 10 {
            false
        } else {
            assert(acc * 10 <= max) by (nonlinear_arith)
                requires
                    acc <= max / 10,
            ;
            max - acc * 10 >= dg
        };
        if !fits {
            assert(acc * 10 + dg > max) by (nonlinear_arith)
                requires
                    acc > max / 10 || acc * 10 + dg > max,
            ;
            proof {
                if all_digits(d) {
                    lemma_prefix_value_le(d, i - k + 1);
                }
            }
            return None;
        }
        acc = acc * 10 + dg;
        i = i + 1;
    }
    assert(d.subrange(0, d.len() as int) =~= d);
    Some(acc)
}

fn skip_space_from(s: &[u8], i: usize) -> (r: usize)
    requires
        i <= s@.len(),
    ensures
        r == skip_space(s@, i as int),
        i <= r <= s@.len(),
{
    let mut j: usize = i;
    while j < s.len() && (s[j] == 32 || (9 <= s[j] && s[j] <= 13))
        invariant
            i <= j <= s@.len(),
            skip_space(s@, j as int) == skip_space(s@, i as int),
        decreases s@.len() - j,
    {
        j = j + 1;
    }
    j
}

fn skip_word_from(s: &[u8], i: usize) -> (r: usize)
    requires
        i <= s@.len(),
    ensures
        r == skip_word(s@, i as int),
        i <= r <= s@.len(),
{
    let mut j: usize = i;
    while j < s.len() && !(s[j] == 32 || (9 <= s[j] && s[j] <= 13))
        invariant
            i <= j <= s@.len(),
            skip_word(s@, j as int) == skip_word(s@, i as int),
        decreases s@.len() - j,
    {
        j = j + 1;
    }
    j
}

/// The status code that a status line gives: its second field read as a
/// number up to 65535, or 0 when that fails.
pub open spec fn status_code_result(line: Seq<u8>) -> u16 {
    match parse_unsigned_result(second_field(line), 65535) {
        Some(v) => v as u16,
        None => 0,
    }
}

/// Reads the status code of a status line.
pub fn status_code_of(line: &[u8]) -> (r: u16)
    ensures
        r == status_code_result(line@),
{
    let a = skip_space_from(line, 0);
    let b = skip_word_from(line, a);
    let c = skip_space_from(line, b);
    let e = skip_word_from(line, c);
    let field = copy_range(line, c, e);
    match parse_unsigned(field.as_slice(), 65535) {
        Some(v) => v as u16,
        None => 0,
    }
}

/// An ASCII letter in lower case; other bytes unchanged.
pub open spec fn ascii_lower(b: u8) -> u8 {
    if 65 <= b <= 90 {
        (b + 32) as u8
    } else {
        b
    }
}

/// The header name `content-length:`, in lower-case ASCII.
pub open spec fn content_length_name() -> Seq<u8> {
    seq![99u8, 111, 110, 116, 101, 110, 116, 45, 108, 101, 110, 103, 116, 104, 58]
}

/// `h` starts with `content-length:`, ASCII letters compared without case.
pub open spec fn names_content_length(h: Seq<u8>) -> bool {
    h.len() >= 15 && forall|i: int| 0 <= i < 15 ==> ascii_lower(#[trigger] h[i]) == content_length_name()[i]
}

/// The first index from `i` on that holds a colon, or the length.
pub open spec fn next_colon(h: Seq<u8>, i: int) -> int
    decreases h.len() - i,
{
    if 0 <= i < h.len() && h[i] != 58 {
        next_colon(h, i + 1)
    } else {
        i
    }
}

/// What one header line says.
#[derive(Clone, Copy, Debug, PartialEq, Eq, Structural)]
pub enum HeaderLine {
    /// The blank line that ends the headers.
    End,
    /// The body's length.
    ContentLength(usize),
    /// Any other header.
    Other,
}

/// What a header line says: blank once trimmed ends the headers; a
/// `content-length:` header gives the number between its colon and the
/// next colon, trimmed, or 0 when that is no number.
pub open spec fn header_line_result(line: Seq<u8>) -> HeaderLine {
    let h = trim(line);
    if h.len() == 0 {
        HeaderLine::End
    } else if names_content_length(h) {
        HeaderLine::ContentLength(
            match parse_unsigned_result(trim(h.subrange(15, next_colon(h, 15))), usize::MAX as nat) {
                Some(v) => v as usize,
                None => 0,
            },
        )
    } else {
        HeaderLine::Other
    }
}

fn trim_end_from(s: &[u8], j: usize) -> (r: usize)
    requires
        j <= s@.len(),
    ensures
        r == trim_end(s@, j as int),
        r <= j,
{
    let mut k: usize = j;
    while k > 0 && (s[k - 1] == 32 || (9 <= s[k - 1] && s[k - 1] <= 13))
        invariant
            k <= j <= s@.len(),
            trim_end(s@, k as int) == trim_end(s@, j as int),
        decreases k,
    {
        k = k - 1;
    }
    k
}

proof fn lemma_trim_end_bound(s: Seq<u8>, j: int, a: int)
    requires
        0 <= a < j <= s.len(),
        !is_space(s[a]),
    ensures
        a < trim_end(s, j) <= j,
    decreases j,
{
    if is_space(s[j - 1]) {
        lemma_trim_end_bound(s, j - 1, a);
    }
}

/// `s` without leading and trailing whitespace, copied.
pub fn trim_bytes(s: &[u8]) -> (r: Vec<u8>)
    ensures
        r@ == trim(s@),
{
    let a = skip_space_from(s, 0);
    if a >= s.len() {
        return Vec::new();
    }
    proof {
        lemma_skip_space_stops(s@, 0);
    }
    let e = trim_end_from(s, s.len());
    proof {
        lemma_trim_end_bound(s@, s@.len() as int, a as int);
    }
    copy_range(s, a, e)
}

proof fn lemma_skip_space_stops(s: Seq<u8>, i: int)
    requires
        0 <= i <= s.len(),
        skip_space(s, i) < s.len(),
    ensures
        !is_space(s[skip_space(s, i)]),
    decreases s.len() - i,
{
    if i < s.len() && is_space(s[i]) {
        lemma_skip_space_stops(s, i + 1);
    }
}

/// Reads one header line.
pub fn header_line(line: &[u8]) -> (r: HeaderLine)
    ensures
        r == header_line_result(line@),
{
    let h = trim_bytes(line);
    if h.len() == 0 {
        return HeaderLine::End;
    }
    if h.len() < 15 {
        return HeaderLine::Other;
    }
    let name: Vec<u8> = vec![99u8, 111, 110, 116, 101, 110, 116, 45, 108, 101, 110, 103, 116, 104, 58];
    assert(name@ =~= content_length_name());
    let mut i: usize = 0;
    while i < 15
        invariant
            i <= 15 <= h@.len(),
            h@ == trim(line@),
            name@ == content_length_name(),
            forall|j: int| 0 <= j < i ==> ascii_lower(#[trigger] h@[j]) == content_length_name()[j],
        decreases 15 - i,
    {
        let b = h[i];
        let lb = if 65 <= b && b <= 90 {
            b + 32
        } else {
            b
        };
        if lb != name[i] {
            assert(ascii_lower(h@[i as int]) != content_length_name()[i as int]);
            assert(!names_content_length(h@));
            return HeaderLine::Other;
        }
        i = i + 1;
    }
    let mut c: usize = 15;
    while c < h.len() && h[c] != 58
        invariant
            15 <= c <= h@.len(),
            h@ == trim(line@),
            names_content_length(h@),
            next_colon(h@, c as int) == next_colon(h@, 15),
        decreases h@.len() - c,
    {
        c = c + 1;
    }
    let value = copy_range(h.as_slice(), 15, c);
    let t = trim_bytes(value.as_slice());
    match parse_unsigned(t.as_slice(), usize::MAX as u64) {
        Some(v) => HeaderLine::ContentLength(v as usize),
        None => HeaderLine::ContentLength(0),
    }
}

} // verus!
