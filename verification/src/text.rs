//! Character and line primitives shared by the rest of the library.
//!
//! Everything here is stated over `Seq<char>`, the view of `str` and `String`.

use vstd::prelude::*;
use vstd::utf8::*;

verus! {

/// The characters with the Unicode `White_Space` property.
pub open spec fn is_whitespace(c: char) -> bool {
    ||| '\u{9}' <= c <= '\u{d}'
    ||| c == ' '
    ||| c == '\u{85}'
    ||| c == '\u{a0}'
    ||| c == '\u{1680}'
    ||| '\u{2000}' <= c <= '\u{200a}'
    ||| c == '\u{2028}'
    ||| c == '\u{2029}'
    ||| c == '\u{202f}'
    ||| c == '\u{205f}'
    ||| c == '\u{3000}'
}

/// Tells whether `c` is a whitespace character.
pub fn char_is_whitespace(c: char) -> (b: bool)
    ensures
        b == is_whitespace(c),
{
    ('\u{9}' <= c && c <= '\u{d}') || c == ' ' || c == '\u{85}' || c == '\u{a0}' || c == '\u{1680}'
        || ('\u{2000}' <= c && c <= '\u{200a}') || c == '\u{2028}' || c == '\u{2029}' || c
        == '\u{202f}' || c == '\u{205f}' || c == '\u{3000}'
}

/// Collects the characters of `s` into a vector.
pub fn chars_of(s: &str) -> (v: Vec<char>)
    ensures
        v@ == s@,
{
    let mut v: Vec<char> = Vec::new();
    for c in it: s.chars()
        invariant
            v@ == it.seq().take(it.index() as int),
            it.seq() == s@,
    {
        v.push(c);
    }
    v
}

/// Compares two strings.  The comparison runs over their UTF-8 bytes, which
/// agree exactly when the characters do.
pub fn same_text(a: &str, b: &str) -> (same: bool)
    ensures
        same == (a@ == b@),
{
    let x = a.as_bytes();
    let y = b.as_bytes();
    proof {
        encode_utf8_decode_utf8(a@);
        encode_utf8_decode_utf8(b@);
    }
    if x.len() != y.len() {
        return false;
    }
    let mut i: usize = 0;
    while i < x.len()
        invariant
            x.len() == y.len(),
            i <= x.len(),
            x@.take(i as int) == y@.take(i as int),
            x@ == encode_utf8(a@),
            y@ == encode_utf8(b@),
        decreases x.len() - i,
    {
        if x[i] != y[i] {
            return false;
        }
        i += 1;
    }
    assert(x@.take(i as int) == x@);
    assert(y@.take(i as int) == y@);
    true
}

/// Position of the last `c` in `s`, if `c` occurs in it.
pub open spec fn last_position(s: Seq<char>, c: char) -> Option<int>
    decreases s.len(),
{
    if s.len() == 0 {
        None
    } else if s.last() == c {
        Some(s.len() - 1)
    } else {
        last_position(s.drop_last(), c)
    }
}

/// `last_position` finds an occurrence after which there is no other, and
/// finds none only where there is none.
pub proof fn lemma_last_position(s: Seq<char>, c: char)
    ensures
        match last_position(s, c) {
            Some(i) => 0 <= i < s.len() && s[i] == c && forall|j: int|
                i < j < s.len() ==> s[j] != c,
            None => forall|j: int| 0 <= j < s.len() ==> s[j] != c,
        },
    decreases s.len(),
{
    if s.len() > 0 && s.last() != c {
        let shorter = s.drop_last();
        lemma_last_position(shorter, c);
        assert forall|j: int| 0 <= j < shorter.len() implies shorter[j] == s[j] by {}
    }
}

/// Finds the last `c` among `chars[lo..hi]`; the position is counted from `lo`.
pub fn find_last(chars: &Vec<char>, lo: usize, hi: usize, c: char) -> (found: Option<usize>)
    requires
        lo <= hi <= chars.len(),
    ensures
        match found {
            Some(i) => i < hi - lo && last_position(chars@.subrange(lo as int, hi as int), c)
                == Some(i as int),
            None => last_position(chars@.subrange(lo as int, hi as int), c) is None,
        },
{
    let ghost part = chars@.subrange(lo as int, hi as int);
    let mut i: usize = hi;
    while i > lo
        invariant
            lo <= i <= hi <= chars.len(),
            part == chars@.subrange(lo as int, hi as int),
            forall|j: int| i - lo <= j < part.len() ==> part[j] != c,
        decreases i,
    {
        i -= 1;
        if chars[i] == c {
            proof {
                lemma_last_position(part, c);
                assert(part[i - lo] == c);
            }
            return Some(i - lo);
        }
    }
    proof {
        lemma_last_position(part, c);
    }
    None
}

/// `s` without the whitespace at its start.
pub open spec fn trim_start(s: Seq<char>) -> Seq<char>
    decreases s.len(),
{
    if s.len() > 0 && is_whitespace(s.first()) {
        trim_start(s.drop_first())
    } else {
        s
    }
}

/// `s` without the whitespace at its end.
pub open spec fn trim_end(s: Seq<char>) -> Seq<char>
    decreases s.len(),
{
    if s.len() > 0 && is_whitespace(s.last()) {
        trim_end(s.drop_last())
    } else {
        s
    }
}

/// `s` without the whitespace around it.
pub open spec fn trim(s: Seq<char>) -> Seq<char> {
    trim_end(trim_start(s))
}

/// Finds the bounds of `chars[lo..hi]` once the whitespace around it is gone.
pub fn trim_bounds(chars: &Vec<char>, lo: usize, hi: usize) -> (bounds: (usize, usize))
    requires
        lo <= hi <= chars.len(),
    ensures
        lo <= bounds.0 <= bounds.1 <= hi,
        chars@.subrange(bounds.0 as int, bounds.1 as int) == trim(
            chars@.subrange(lo as int, hi as int),
        ),
{
    let mut a: usize = lo;
    while a < hi && char_is_whitespace(chars[a])
        invariant
            lo <= a <= hi <= chars.len(),
            trim_start(chars@.subrange(a as int, hi as int)) == trim_start(
                chars@.subrange(lo as int, hi as int),
            ),
        decreases hi - a,
    {
        assert(chars@.subrange(a as int, hi as int).drop_first() == chars@.subrange(
            a + 1,
            hi as int,
        ));
        a += 1;
    }
    let mut b: usize = hi;
    while b > a && char_is_whitespace(chars[b - 1])
        invariant
            a <= b <= hi <= chars.len(),
            trim_end(chars@.subrange(a as int, b as int)) == trim_end(
                chars@.subrange(a as int, hi as int),
            ),
        decreases b,
    {
        assert(chars@.subrange(a as int, b as int).drop_last() == chars@.subrange(
            a as int,
            b - 1,
        ));
        b -= 1;
    }
    (a, b)
}

/// The pieces of `s` between occurrences of `sep`, in order.  There is always
/// at least one piece, and a separator at either end leaves an empty one there.
pub open spec fn split(s: Seq<char>, sep: char) -> Seq<Seq<char>>
    decreases s.len(),
{
    if s.len() == 0 {
        seq![Seq::empty()]
    } else {
        let before = split(s.drop_last(), sep);
        if s.last() == sep {
            before.push(Seq::empty())
        } else {
            before.drop_last().push(before.last().push(s.last()))
        }
    }
}

/// The text that each pair of bounds cuts out of `s`.
pub open spec fn pieces(s: Seq<char>, bounds: Seq<(usize, usize)>) -> Seq<Seq<char>> {
    Seq::new(bounds.len(), |i: int| s.subrange(bounds[i].0 as int, bounds[i].1 as int))
}

/// Splits `chars` at every `sep` and returns the bounds of each piece.
pub fn split_bounds(chars: &Vec<char>, sep: char) -> (bounds: Vec<(usize, usize)>)
    ensures
        forall|i: int|
            0 <= i < bounds.len() ==> (#[trigger] bounds[i]).0 <= bounds[i].1 <= chars.len(),
        pieces(chars@, bounds@) == split(chars@, sep),
{
    let mut bounds: Vec<(usize, usize)> = Vec::new();
    let mut start: usize = 0;
    let mut k: usize = 0;
    assert(chars@.subrange(0, 0) == Seq::<char>::empty());
    while k < chars.len()
        invariant
            start <= k <= chars.len(),
            forall|i: int|
                0 <= i < bounds.len() ==> (#[trigger] bounds[i]).0 <= bounds[i].1 <= chars.len(),
            pieces(chars@, bounds@).push(chars@.subrange(start as int, k as int)) == split(
                chars@.take(k as int),
                sep,
            ),
        decreases chars.len() - k,
    {
        let ghost current = chars@.subrange(start as int, k as int);
        assert(chars@.take(k + 1).drop_last() == chars@.take(k as int));
        if chars[k] == sep {
            bounds.push((start, k));
            start = k + 1;
            assert(chars@.subrange(start as int, k + 1) == Seq::<char>::empty());
        } else {
            assert(chars@.subrange(start as int, k + 1) == current.push(chars@[k as int]));
        }
        k += 1;
    }
    assert(chars@.take(k as int) == chars@);
    bounds.push((start, k));
    bounds
}

/// `s` without the run of `c` at its start.
pub open spec fn strip_leading(s: Seq<char>, c: char) -> Seq<char>
    decreases s.len(),
{
    if s.len() > 0 && s.first() == c {
        strip_leading(s.drop_first(), c)
    } else {
        s
    }
}

/// `s` without the run of `c` at its end.
pub open spec fn strip_trailing(s: Seq<char>, c: char) -> Seq<char>
    decreases s.len(),
{
    if s.len() > 0 && s.last() == c {
        strip_trailing(s.drop_last(), c)
    } else {
        s
    }
}

/// Finds where `chars[lo..]` begins once the run of `c` at its start is gone.
pub fn skip_leading(chars: &Vec<char>, lo: usize, c: char) -> (at: usize)
    requires
        lo <= chars.len(),
    ensures
        lo <= at <= chars.len(),
        chars@.skip(at as int) == strip_leading(chars@.skip(lo as int), c),
{
    let mut a: usize = lo;
    while a < chars.len() && chars[a] == c
        invariant
            lo <= a <= chars.len(),
            strip_leading(chars@.skip(a as int), c) == strip_leading(chars@.skip(lo as int), c),
        decreases chars.len() - a,
    {
        assert(chars@.skip(a as int).drop_first() == chars@.skip(a + 1));
        a += 1;
    }
    a
}

/// Finds where `chars` ends once the run of `c` at its end is gone.
pub fn skip_trailing(chars: &Vec<char>, c: char) -> (end: usize)
    ensures
        end <= chars.len(),
        chars@.take(end as int) == strip_trailing(chars@, c),
{
    let mut b: usize = chars.len();
    assert(chars@.take(b as int) == chars@);
    while b > 0 && chars[b - 1] == c
        invariant
            b <= chars.len(),
            strip_trailing(chars@.take(b as int), c) == strip_trailing(chars@, c),
        decreases b,
    {
        assert(chars@.take(b as int).drop_last() == chars@.take(b - 1));
        b -= 1;
    }
    b
}

/// Calls `String::push`.  Trusted: the character is appended to the text.
#[verifier::external_body]
fn push_char(text: &mut String, c: char)
    ensures
        final(text)@ == old(text)@.push(c),
{
    text.push(c);
}

/// Writes the characters `chars[lo..hi]` into a new string.
pub fn copy_range(chars: &Vec<char>, lo: usize, hi: usize) -> (piece: String)
    requires
        lo <= hi <= chars.len(),
    ensures
        piece@ == chars@.subrange(lo as int, hi as int),
{
    let mut piece = String::new();
    let mut i: usize = lo;
    while i < hi
        invariant
            lo <= i <= hi <= chars.len(),
            piece@ == chars@.subrange(lo as int, i as int),
        decreases hi - i,
    {
        push_char(&mut piece, chars[i]);
        i += 1;
    }
    piece
}

/// The character that writes the digit `d`.
pub open spec fn digit(d: nat) -> char
    recommends
        d < 10,
{
    ('0' as nat + d) as char
}

/// `n` written in decimal, without leading zeros.
pub open spec fn decimal(n: nat) -> Seq<char>
    decreases n,
{
    if n < 10 {
        seq![digit(n)]
    } else {
        decimal(n / 10).push(digit(n % 10))
    }
}

fn digit_char(d: u8) -> (c: char)
    requires
        d < 10,
    ensures
        c == digit(d as nat),
{
    (48u8 + d) as char
}

/// Writes `n` in decimal.
pub fn decimal_text(n: u64) -> (t: String)
    ensures
        t@ == decimal(n as nat),
    decreases n,
{
    let mut t = if n < 10 {
        String::new()
    } else {
        decimal_text(n / 10)
    };
    push_char(&mut t, digit_char((n % 10) as u8));
    t
}

} // verus!
