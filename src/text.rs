//! Character-level text primitives: literal search, byte/char offset
//! conversion, evidence windows, and the calls into std and outside crates
//! that the matcher relies on.
use vstd::prelude::*;

verus! {

/// `needle` occurs in `hay` starting at character index `i`.
pub open spec fn occurs_at(hay: Seq<char>, needle: Seq<char>, i: int) -> bool {
    0 <= i && i + needle.len() <= hay.len() && hay.subrange(i, i + needle.len()) == needle
}

/// The first index at or after `i` where `needle` occurs in `hay`.
pub open spec fn find_from(hay: Seq<char>, needle: Seq<char>, i: int) -> Option<int>
    decreases hay.len() + 1 - i,
{
    if i < 0 || i + needle.len() > hay.len() {
        None
    } else if occurs_at(hay, needle, i) {
        Some(i)
    } else {
        find_from(hay, needle, i + 1)
    }
}

/// The first index where `needle` occurs in `hay`.
pub open spec fn first_occurrence(hay: Seq<char>, needle: Seq<char>) -> Option<int> {
    find_from(hay, needle, 0)
}

/// Collects the characters of `s`.
pub fn chars_of(s: &str) -> (r: Vec<char>)
    ensures
        r@ == s@,
{
    let mut out: Vec<char> = Vec::new();
    for c in it: s.chars()
        invariant
            it.seq() == s@,
            out@ == it.seq().take(it.index() as int),
    {
        out.push(c);
    }
    out
}


/// Whether `needle` occurs in `hay` at index `i`.
fn occurs_at_exec(hay: &Vec<char>, needle: &Vec<char>, i: usize) -> (r: bool)
    ensures
        r == occurs_at(hay@, needle@, i as int),
{
    if needle.len() > hay.len() || i > hay.len() - needle.len() {
        return false;
    }
    let mut k: usize = 0;
    while k < needle.len()
        invariant
            i + needle.len() <= hay.len(),
            k <= needle.len(),
            forall|j: int| 0 <= j < k ==> hay@[i + j] == needle@[j],
        decreases needle.len() - k,
    {
        if hay[i + k] != needle[k] {
            assert(hay@.subrange(i as int, i + needle.len())[k as int] != needle@[k as int]);
            return false;
        }
        k = k + 1;
    }
    assert(hay@.subrange(i as int, i + needle.len()) =~= needle@);
    true
}

/// Searches `hay` for the first occurrence of `needle`.
pub fn find_chars(hay: &Vec<char>, needle: &Vec<char>) -> (r: Option<usize>)
    ensures
        match r {
            Some(i) => first_occurrence(hay@, needle@) == Some(i as int),
            None => first_occurrence(hay@, needle@) is None,
        },
        r matches Some(i) ==> occurs_at(hay@, needle@, i as int),
{
    if needle.len() > hay.len() {
        return None;
    }
    let last: usize = hay.len() - needle.len();
    let mut i: usize = 0;
    loop
        invariant
            i <= last,
            last + needle.len() == hay.len(),
            find_from(hay@, needle@, 0) == find_from(hay@, needle@, i as int),
        decreases last - i,
    {
        if occurs_at_exec(hay, needle, i) {
            return Some(i);
        }
        if i == last {
            assert(find_from(hay@, needle@, i + 1) is None);
            return None;
        }
        i = i + 1;
    }
}

/// Number of bytes that UTF-8 uses to encode `c`.
pub open spec fn utf8_width(c: char) -> nat {
    if (c as u32) < 0x80 {
        1
    } else if (c as u32) < 0x800 {
        2
    } else if (c as u32) < 0x10000 {
        3
    } else {
        4
    }
}

/// Number of leading characters of `s` whose UTF-8 encoding fits in `b` bytes:
/// the character index that the byte offset `b` falls on.
pub open spec fn char_index_at_byte(s: Seq<char>, b: int) -> nat
    decreases s.len(),
{
    if s.len() == 0 || b < utf8_width(s[0]) {
        0
    } else {
        1 + char_index_at_byte(s.drop_first(), b - utf8_width(s[0]))
    }
}

fn utf8_width_exec(c: char) -> (w: usize)
    ensures
        w == utf8_width(c),
{
    let v = c as u32;
    if v < 0x80 {
        1
    } else if v < 0x800 {
        2
    } else if v < 0x10000 {
        3
    } else {
        4
    }
}

/// Converts a byte offset into `s`'s UTF-8 encoding into a character index.
pub fn byte_to_char_index(s: &Vec<char>, b: usize) -> (k: usize)
    ensures
        k == char_index_at_byte(s@, b as int),
        k <= s@.len(),
{
    let mut i: usize = 0;
    let mut rem: usize = b;
    assert(s@.subrange(0, s@.len() as int) =~= s@);
    while i < s.len() && utf8_width_exec(s[i]) <= rem
        invariant
            i <= s.len(),
            char_index_at_byte(s@, b as int) == i + char_index_at_byte(
                s@.subrange(i as int, s@.len() as int),
                rem as int,
            ),
        decreases s.len() - i,
    {
        let w = utf8_width_exec(s[i]);
        proof {
            assert(s@.subrange(i as int, s@.len() as int).drop_first() =~= s@.subrange(
                i + 1,
                s@.len() as int,
            ));
        }
        rem = rem - w;
        i = i + 1;
    }
    i
}


/// What `str::to_lowercase` returns for a string with characters `s`.
pub uninterp spec fn lower_of(s: Seq<char>) -> Seq<char>;

/// What `str::trim` leaves of a string with characters `s`.
pub uninterp spec fn trim_of(s: Seq<char>) -> Seq<char>;

/// The byte span of the leftmost-first match of regular expression `pattern`
/// in `text`, as the regex crate reports it; `None` when the pattern does not
/// compile or does not match.
pub uninterp spec fn regex_find_of(pattern: Seq<char>, text: Seq<char>) -> Option<(usize, usize)>;

/// What `{:?}` prints for a string with characters `s` (quoted and escaped).
pub uninterp spec fn debug_quoted_of(s: Seq<char>) -> Seq<char>;

/// Relies on `str::to_lowercase`: Unicode lower-casing, a function of the
/// characters alone.
#[verifier::external_body]
pub(crate) fn lowercase(s: &str) -> (r: String)
    ensures
        r@ == lower_of(s@),
{
    s.to_lowercase()
}

/// Relies on `str::trim`: removal of leading and trailing whitespace.
#[verifier::external_body]
pub(crate) fn trim(s: &str) -> (r: String)
    ensures
        r@ == trim_of(s@),
{
    s.trim().to_string()
}

/// Relies on `regex::Regex::new` and `regex::Regex::find`: compiles `pattern`
/// and reports the byte offsets of the leftmost-first match in `text`. The
/// crate documents that a match's start never exceeds its end.
#[verifier::external_body]
pub(crate) fn regex_find(pattern: &str, text: &str) -> (r: Option<(usize, usize)>)
    ensures
        r == regex_find_of(pattern@, text@),
        r matches Some((s, e)) ==> s <= e,
{
    match regex::Regex::new(pattern) {
        Ok(re) => re.find(text).map(|m| (m.start(), m.end())),
        Err(_) => None,
    }
}

/// Relies on the `Debug` impl of `str`: the string in double quotes, with
/// special characters escaped.
#[verifier::external_body]
pub(crate) fn debug_quote(s: &str) -> (r: String)
    ensures
        r@ == debug_quoted_of(s@),
{
    format!("{:?}", s)
}

/// The character range `[lo, hi)` quoted as evidence for a match spanning
/// `[start, end)`: the match plus `extra` characters of lookahead, clipped to
/// a text of `len` characters.
pub open spec fn evidence_window(len: int, start: int, end: int, extra: int) -> (int, int) {
    let hi = if end + extra < len {
        end + extra
    } else {
        len
    };
    let lo = if start < hi {
        start
    } else {
        hi
    };
    (lo, hi)
}

/// The evidence quote for a match spanning `[start, end)` in `t`: the window
/// of [`evidence_window`], whitespace-trimmed.
pub open spec fn evidence_quote(t: Seq<char>, start: int, end: int, extra: int) -> Seq<char> {
    let w = evidence_window(t.len() as int, start, end, extra);
    trim_of(t.subrange(w.0, w.1))
}

/// Builds the evidence quote for a match spanning `[start, end)` in `t`, whose
/// length in characters is `len`.
pub fn quote_evidence(t: &str, len: usize, start: usize, end: usize, extra: usize) -> (r: String)
    requires
        len == t@.len(),
    ensures
        r@ == evidence_quote(t@, start as int, end as int, extra as int),
{
    let hi: usize = if end < len && len - end > extra {
        end + extra
    } else {
        len
    };
    let lo: usize = if start < hi {
        start
    } else {
        hi
    };
    let part = t.substring_char(lo, hi);
    trim(part)
}


/// Whether two strings hold the same characters.
pub fn same_text(a: &str, b: &str) -> (r: bool)
    ensures
        r == (a@ == b@),
{
    let n = a.unicode_len();
    if n != b.unicode_len() {
        return false;
    }
    let mut i: usize = 0;
    while i < n
        invariant
            n == a@.len(),
            n == b@.len(),
            i <= n,
            forall|j: int| 0 <= j < i ==> a@[j] == b@[j],
        decreases n - i,
    {
        if a.get_char(i) != b.get_char(i) {
            return false;
        }
        i = i + 1;
    }
    assert(a@ =~= b@);
    true
}

} // verus!
