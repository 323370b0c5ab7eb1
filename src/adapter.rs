//! Recognition of the AC adapter among the power-supply entries, and the
//! reading of its "online" indicator.
use vstd::prelude::*;

verus! {

/// One power-supply entry: the text of its type descriptor, if it could be
/// read, and whether it exposes an "online" indicator.
#[derive(Debug)]
pub struct SupplyEntry {
    pub kind: Option<String>,
    pub has_online: bool,
}

/// The characters with Unicode's White_Space property.
pub open spec fn is_space(c: char) -> bool {
    ('\t' <= c <= '\r') || c == ' ' || c == '\u{85}' || c == '\u{A0}' || c == '\u{1680}' || (
    '\u{2000}' <= c <= '\u{200A}') || c == '\u{2028}' || c == '\u{2029}' || c == '\u{202F}' || c
        == '\u{205F}' || c == '\u{3000}'
}

/// `s` without its leading white space.
pub open spec fn trim_start(s: Seq<char>) -> Seq<char>
    decreases s.len(),
{
    if s.len() > 0 && is_space(s[0]) {
        trim_start(s.drop_first())
    } else {
        s
    }
}

/// `s` without its trailing white space.
pub open spec fn trim_end(s: Seq<char>) -> Seq<char>
    decreases s.len(),
{
    if s.len() > 0 && is_space(s.last()) {
        trim_end(s.drop_last())
    } else {
        s
    }
}

/// `s` without leading and trailing white space.
pub open spec fn trim(s: Seq<char>) -> Seq<char> {
    trim_end(trim_start(s))
}

/// The trimmed type descriptor reads "mains" in any letter case.
pub open spec fn is_mains_text(s: Seq<char>) -> bool {
    let t = trim(s);
    &&& t.len() == 5
    &&& t[0] == 'm' || t[0] == 'M'
    &&& t[1] == 'a' || t[1] == 'A'
    &&& t[2] == 'i' || t[2] == 'I'
    &&& t[3] == 'n' || t[3] == 'N'
    &&& t[4] == 's' || t[4] == 'S'
}

/// The entry is a mains adapter with an "online" indicator.
pub open spec fn is_adapter(e: SupplyEntry) -> bool {
    e.has_online && match e.kind {
        Some(k) => is_mains_text(k@),
        None => false,
    }
}

pub open spec fn is_digit(c: char) -> bool {
    '0' <= c <= '9'
}

pub open spec fn digit_value(c: char) -> nat {
    (c as u32 - '0' as u32) as nat
}

/// The number that a sequence of decimal digits denotes.
pub open spec fn digits_value(d: Seq<char>) -> nat
    decreases d.len(),
{
    if d.len() == 0 {
        0
    } else {
        digits_value(d.drop_last()) * 10 + digit_value(d.last())
    }
}

/// The digits of an unsigned number: the text after an optional '+'.
pub open spec fn unsigned_digits(t: Seq<char>) -> Seq<char> {
    if t.len() > 0 && t[0] == '+' {
        t.drop_first()
    } else {
        t
    }
}

/// The value of `t` read as an 8-bit unsigned decimal number: an optional '+'
/// and at least one digit, with a value of at most 255.
pub open spec fn parse_u8(t: Seq<char>) -> Option<nat> {
    let d = unsigned_digits(t);
    if d.len() > 0 && (forall|i: int| 0 <= i < d.len() ==> is_digit(#[trigger] d[i]))
        && digits_value(d) <= 255 {
        Some(digits_value(d))
    } else {
        None
    }
}

/// The indicator reads as a nonzero 8-bit number once trimmed.
pub open spec fn online_text(s: Seq<char>) -> bool {
    match parse_u8(trim(s)) {
        Some(v) => v != 0,
        None => false,
    }
}

/// Whether `c` is white space.
pub fn is_space_char(c: char) -> (r: bool)
    ensures
        r == is_space(c),
{
    ('\t' <= c && c <= '\r') || c == ' ' || c == '\u{85}' || c == '\u{A0}' || c == '\u{1680}' || (
    '\u{2000}' <= c && c <= '\u{200A}') || c == '\u{2028}' || c == '\u{2029}' || c == '\u{202F}'
        || c == '\u{205F}' || c == '\u{3000}'
}

/// The bounds of `s` without its leading and trailing white space.
pub fn trim_bounds(s: &str) -> (r: (usize, usize))
    ensures
        r.0 <= r.1 <= s@.len(),
        trim(s@) == s@.subrange(r.0 as int, r.1 as int),
{
    let n = s.unicode_len();
    let mut lo: usize = 0;
    assert(s@.subrange(0, n as int) =~= s@);
    while lo < n && is_space_char(s.get_char(lo))
        invariant
            n == s@.len(),
            lo <= n,
            trim_start(s@) == trim_start(s@.subrange(lo as int, n as int)),
        decreases n - lo,
    {
        assert(s@.subrange(lo as int, n as int).drop_first() =~= s@.subrange(lo + 1, n as int));
        lo = lo + 1;
    }
    let mut hi: usize = n;
    while hi > lo && is_space_char(s.get_char(hi - 1))
        invariant
            n == s@.len(),
            lo <= hi <= n,
            trim_start(s@) == s@.subrange(lo as int, n as int),
            trim(s@) == trim_end(s@.subrange(lo as int, hi as int)),
        decreases hi - lo,
    {
        assert(s@.subrange(lo as int, hi as int).drop_last() =~= s@.subrange(
            lo as int,
            hi - 1,
        ));
        hi = hi - 1;
    }
    (lo, hi)
}

/// Whether an entry's type descriptor names a mains adapter.
pub fn is_mains(kind: &str) -> (r: bool)
    ensures
        r == is_mains_text(kind@),
{
    let (lo, hi) = trim_bounds(kind);
    if hi - lo != 5 {
        return false;
    }
    let c0 = kind.get_char(lo);
    let c1 = kind.get_char(lo + 1);
    let c2 = kind.get_char(lo + 2);
    let c3 = kind.get_char(lo + 3);
    let c4 = kind.get_char(lo + 4);
    (c0 == 'm' || c0 == 'M') && (c1 == 'a' || c1 == 'A') && (c2 == 'i' || c2 == 'I') && (c3 == 'n'
        || c3 == 'N') && (c4 == 's' || c4 == 'S')
}

/// The index of the first entry that is a mains adapter with an "online"
/// indicator, if any.
pub fn select_adapter(entries: &Vec<SupplyEntry>) -> (r: Option<usize>)
    ensures
        r matches Some(i) ==> i < entries@.len() && is_adapter(entries@[i as int]) && forall|j: int|
            0 <= j < i ==> !is_adapter(#[trigger] entries@[j]),
        r is None ==> forall|j: int| 0 <= j < entries@.len() ==> !is_adapter(#[trigger] entries@[j]),
{
    let mut i: usize = 0;
    while i < entries.len()
        invariant
            i <= entries@.len(),
            forall|j: int| 0 <= j < i ==> !is_adapter(#[trigger] entries@[j]),
        decreases entries@.len() - i,
    {
        let e = &entries[i];
        let found = match &e.kind {
            Some(k) => e.has_online && is_mains(k.as_str()),
            None => false,
        };
        if found {
            return Some(i);
        }
        i = i + 1;
    }
    None
}

/// Whether the text of an "online" indicator says the adapter delivers power.
pub fn online_value(text: &str) -> (r: bool)
    ensures
        r == online_text(text@),
{
    let (lo, hi) = trim_bounds(text);
    let ghost t = text@.subrange(lo as int, hi as int);
    let mut start = lo;
    if lo < hi && text.get_char(lo) == '+' {
        start = lo + 1;
    }
    let ghost d = text@.subrange(start as int, hi as int);
    assert(d =~= unsigned_digits(t));
    assert(trim(text@) == t);
    if start == hi {
        assert(unsigned_digits(trim(text@)).len() == 0);
        return false;
    }
    // the value read so far, capped at 256
    let mut acc: u32 = 0;
    let mut i = start;
    while i < hi
        invariant
            lo <= start <= i <= hi <= text@.len(),
            d == text@.subrange(start as int, hi as int),
            d == unsigned_digits(trim(text@)),
            forall|j: int| 0 <= j < i - start ==> is_digit(#[trigger] d[j]),
            acc == if digits_value(d.take(i - start)) < 256 {
                digits_value(d.take(i - start))
            } else {
                256
            },
        decreases hi - i,
    {
        let c = text.get_char(i);
        if !('0' <= c && c <= '9') {
            assert(!is_digit(d[i - start]));
            return false;
        }
        proof {
            assert(d.take(i + 1 - start).drop_last() =~= d.take(i - start));
        }
        if acc < 256 {
            acc = acc * 10 + (c as u32 - '0' as u32);
            if acc > 256 {
                acc = 256;
            }
        }
        i = i + 1;
    }
    assert(d.take(hi - start) =~= d);
    acc != 0 && acc < 256
}

/// Whether the adapter delivers power, given whether one was found and the
/// text of its indicator if it could be read. With no adapter, or with an
/// indicator that cannot be read or parsed, the answer is false.
pub fn probe(found: bool, indicator: Option<&str>) -> (r: bool)
    ensures
        r == (found && match indicator {
            Some(t) => online_text(t@),
            None => false,
        }),
        !found ==> !r,
{
    if !found {
        return false;
    }
    match indicator {
        Some(t) => online_value(t),
        None => false,
    }
}

} // verus!
