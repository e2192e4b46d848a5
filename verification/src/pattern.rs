//! The extraction patterns, as specs over character sequences, and the
//! scanner that implements them.
//!
//! A media-URL field is a key (`sd_src` or `hd_src`), optionally suffixed
//! with `_no_ratelimit`, followed by a colon, optional whitespace, and a
//! nonempty double-quoted value; the value is returned with quotes and
//! whitespace stripped. A title field is `title id="pageTitle">` followed by
//! the title text, which runs up to the first `<`, which must open
//! `</title>`. Both searches return the leftmost occurrence.

use vstd::prelude::*;
use vstd::string::StrSliceExecFns;

use crate::video::Quality;

verus! {

/// The whitespace characters allowed between the key's colon and the opening
/// quote of the value.
pub open spec fn is_gap_char(c: char) -> bool {
    c == ' ' || c == '\t' || c == '\n' || c == '\r' || c == '\u{c}'
}

/// The key that the Standard Definition pattern anchors on.
pub open spec fn sd_key() -> Seq<char> {
    "sd_src"@
}

/// The key that the High Definition pattern anchors on.
pub open spec fn hd_key() -> Seq<char> {
    "hd_src"@
}

/// The optional rate-limit marker that may follow either key.
pub open spec fn ratelimit_suffix() -> Seq<char> {
    "_no_ratelimit"@
}

/// The key the URL pattern for a quality tier anchors on.
pub open spec fn key_of(quality: Quality) -> Seq<char> {
    match quality {
        Quality::Sd => sd_key(),
        Quality::Hd => hd_key(),
    }
}

/// The literal that opens a page-title field.
pub open spec fn title_open() -> Seq<char> {
    "title id=\"pageTitle\">"@
}

/// The literal that must close a page-title field.
pub open spec fn title_close() -> Seq<char> {
    "</title>"@
}

/// The first position at or after `j` holding a non-whitespace character, or
/// the length of `s` if whitespace runs to the end.
pub open spec fn gap_end_from(s: Seq<char>, j: int) -> int
    decreases s.len() - j when 0 <= j <= s.len()
{
    if j >= s.len() {
        j
    } else if is_gap_char(s[j]) {
        gap_end_from(s, j + 1)
    } else {
        j
    }
}

/// The first position at or after `j` holding character `c`, or the length
/// of `s` if there is none.
pub open spec fn find_from(s: Seq<char>, c: char, j: int) -> int
    decreases s.len() - j when 0 <= j <= s.len()
{
    if j >= s.len() {
        j
    } else if s[j] == c {
        j
    } else {
        find_from(s, c, j + 1)
    }
}

/// Whether `pat` occurs in `s` starting at position `i`.
pub open spec fn occurs_at(s: Seq<char>, pat: Seq<char>, i: int) -> bool {
    0 <= i && i + pat.len() <= s.len() && s.subrange(i, i + pat.len() as int) == pat
}

/// The quoted value that follows a matched key ending just before position
/// `j`: a colon at `j`, then optional whitespace, then a nonempty run of
/// non-quote characters enclosed in double quotes. `None` if that shape is
/// absent.
pub open spec fn value_at(s: Seq<char>, j: int) -> Option<Seq<char>> {
    if !(0 <= j < s.len() && s[j] == ':') {
        None
    } else {
        let q = gap_end_from(s, j + 1);
        if !(q < s.len() && s[q] == '"') {
            None
        } else {
            let e = find_from(s, '"', q + 1);
            if q + 1 < e < s.len() {
                Some(s.subrange(q + 1, e))
            } else {
                None
            }
        }
    }
}

/// The value captured by the URL pattern anchored at position `i`: the key
/// must occur at `i`, and a well-shaped value must follow either the
/// rate-limit-suffixed form of the key (preferred, as the suffix is consumed
/// greedily) or the bare key.
pub open spec fn match_at(s: Seq<char>, key: Seq<char>, i: int) -> Option<Seq<char>> {
    if !occurs_at(s, key, i) {
        None
    } else {
        let j = i + key.len() as int;
        if occurs_at(s, ratelimit_suffix(), j) {
            match value_at(s, j + ratelimit_suffix().len() as int) {
                Some(v) => Some(v),
                None => value_at(s, j),
            }
        } else {
            value_at(s, j)
        }
    }
}

/// The value of the leftmost URL-pattern match at or after position `i`.
pub open spec fn grep_from(s: Seq<char>, key: Seq<char>, i: int) -> Option<Seq<char>>
    decreases s.len() - i when 0 <= i <= s.len()
{
    if i >= s.len() {
        None
    } else {
        match match_at(s, key, i) {
            Some(v) => Some(v),
            None => grep_from(s, key, i + 1),
        }
    }
}

/// The value of the leftmost URL-pattern match in the whole of `s`.
pub open spec fn spec_grep(s: Seq<char>, key: Seq<char>) -> Option<Seq<char>> {
    grep_from(s, key, 0)
}

/// The media URL the body `s` yields for quality tier `quality`.
pub open spec fn spec_grep_url(s: Seq<char>, quality: Quality) -> Option<Seq<char>> {
    spec_grep(s, key_of(quality))
}

/// The title captured by the title pattern anchored at position `i`: the
/// opening literal occurs at `i`, the title text is the nonempty run up to
/// the first following `<`, and that `<` must open the closing literal.
pub open spec fn title_at(s: Seq<char>, i: int) -> Option<Seq<char>> {
    if !occurs_at(s, title_open(), i) {
        None
    } else {
        let p = i + title_open().len() as int;
        let e = find_from(s, '<', p);
        if p < e && occurs_at(s, title_close(), e) {
            Some(s.subrange(p, e))
        } else {
            None
        }
    }
}

/// The title of the leftmost title-pattern match at or after position `i`.
pub open spec fn title_from(s: Seq<char>, i: int) -> Option<Seq<char>>
    decreases s.len() - i when 0 <= i <= s.len()
{
    if i >= s.len() {
        None
    } else {
        match title_at(s, i) {
            Some(v) => Some(v),
            None => title_from(s, i + 1),
        }
    }
}

/// The title the body `s` yields.
pub open spec fn spec_grep_title(s: Seq<char>) -> Option<Seq<char>> {
    title_from(s, 0)
}

/// The position just past `pat` when `pat` occurs in `content` at character
/// position `i`, `None` otherwise.
fn seq_end_at(content: &str, pat: &str, i: usize) -> (r: Option<usize>)
    requires
        i <= content@.len(),
    ensures
        match r {
            Some(j) => occurs_at(content@, pat@, i as int) && j == i + pat@.len()
                && j <= content@.len(),
            None => !occurs_at(content@, pat@, i as int),
        },
{
    let n = content.unicode_len();
    let m = pat.unicode_len();
    if m > n - i {
        return None;
    }
    let mut k: usize = 0;
    while k < m
        invariant
            i + m <= n,
            n == content@.len(),
            m == pat@.len(),
            k <= m,
            forall|t: int| 0 <= t < k ==> content@[i + t] == pat@[t],
        decreases m - k,
    {
        if content.get_char(i + k) != pat.get_char(k) {
            proof {
                if occurs_at(content@, pat@, i as int) {
                    assert(content@.subrange(i as int, i + pat@.len() as int)[k as int]
                        == content@[i + k]);
                }
            }
            return None;
        }
        k += 1;
    }
    proof {
        assert(content@.subrange(i as int, i + pat@.len() as int) =~= pat@);
    }
    Some(i + m)
}

/// Whether `c` is one of the whitespace characters the URL pattern skips.
fn is_gap(c: char) -> (b: bool)
    ensures
        b == is_gap_char(c),
{
    c == ' ' || c == '\t' || c == '\n' || c == '\r' || c == '\u{c}'
}

/// The first non-whitespace position at or after `j`.
fn scan_gap_end(content: &str, j: usize) -> (e: usize)
    requires
        j <= content@.len(),
    ensures
        e == gap_end_from(content@, j as int),
        j <= e <= content@.len(),
{
    let n = content.unicode_len();
    let mut k: usize = j;
    while k < n && is_gap(content.get_char(k))
        invariant
            j <= k <= n,
            n == content@.len(),
            gap_end_from(content@, j as int) == gap_end_from(content@, k as int),
        decreases n - k,
    {
        k += 1;
    }
    k
}

/// The first position at or after `j` holding `target`, or the length of
/// `content` if there is none.
fn scan_find(content: &str, target: char, j: usize) -> (e: usize)
    requires
        j <= content@.len(),
    ensures
        e == find_from(content@, target, j as int),
        j <= e <= content@.len(),
{
    let n = content.unicode_len();
    let mut k: usize = j;
    while k < n && content.get_char(k) != target
        invariant
            j <= k <= n,
            n == content@.len(),
            find_from(content@, target, j as int) == find_from(content@, target, k as int),
        decreases n - k,
    {
        k += 1;
    }
    k
}

/// The quoted value that follows a matched key ending just before `j`.
fn value_after(content: &str, j: usize) -> (r: Option<String>)
    requires
        j <= content@.len(),
    ensures
        match r {
            Some(v) => value_at(content@, j as int) == Some(v@),
            None => value_at(content@, j as int) is None,
        },
{
    let n = content.unicode_len();
    if j >= n {
        return None;
    }
    if content.get_char(j) != ':' {
        return None;
    }
    let q = scan_gap_end(content, j + 1);
    if q >= n {
        return None;
    }
    if content.get_char(q) != '"' {
        return None;
    }
    let e = scan_find(content, '"', q + 1);
    if e >= n {
        return None;
    }
    if e <= q + 1 {
        return None;
    }
    let v = content.substring_char(q + 1, e);
    Some(v.to_owned())
}

/// The value captured by the URL pattern anchored at `i`, with the
/// rate-limit-suffixed form of the key tried first.
fn url_match_at(content: &str, key: &str, i: usize) -> (r: Option<String>)
    requires
        i <= content@.len(),
    ensures
        match r {
            Some(v) => match_at(content@, key@, i as int) == Some(v@),
            None => match_at(content@, key@, i as int) is None,
        },
{
    let j = match seq_end_at(content, key, i) {
        Some(j) => j,
        None => {
            return None;
        },
    };
    match seq_end_at(content, "_no_ratelimit", j) {
        Some(j2) => match value_after(content, j2) {
            Some(v) => Some(v),
            None => value_after(content, j),
        },
        None => value_after(content, j),
    }
}

/// The value of the leftmost URL-pattern match in `content`.
fn grep_key(content: &str, key: &str) -> (r: Option<String>)
    ensures
        match r {
            Some(v) => spec_grep(content@, key@) == Some(v@),
            None => spec_grep(content@, key@) is None,
        },
{
    let n = content.unicode_len();
    let mut i: usize = 0;
    while i < n
        invariant
            i <= n,
            n == content@.len(),
            grep_from(content@, key@, 0) == grep_from(content@, key@, i as int),
        decreases n - i,
    {
        match url_match_at(content, key, i) {
            Some(v) => {
                return Some(v);
            },
            None => {},
        }
        i += 1;
    }
    None
}

/// Searches `content` for the media-URL field of the requested quality and
/// returns its value, with quotes and whitespace stripped; `None` when no
/// occurrence of the pattern exists.
pub fn grep_video_url(content: &str, quality: Quality) -> (r: Option<String>)
    ensures
        match r {
            Some(v) => spec_grep_url(content@, quality) == Some(v@),
            None => spec_grep_url(content@, quality) is None,
        },
{
    match quality {
        Quality::Sd => grep_key(content, "sd_src"),
        Quality::Hd => grep_key(content, "hd_src"),
    }
}

/// The title captured by the title pattern anchored at `i`.
fn title_match_at(content: &str, i: usize) -> (r: Option<String>)
    requires
        i <= content@.len(),
    ensures
        match r {
            Some(v) => title_at(content@, i as int) == Some(v@),
            None => title_at(content@, i as int) is None,
        },
{
    let p = match seq_end_at(content, "title id=\"pageTitle\">", i) {
        Some(p) => p,
        None => {
            return None;
        },
    };
    let e = scan_find(content, '<', p);
    if e <= p {
        return None;
    }
    match seq_end_at(content, "</title>", e) {
        Some(_) => (),
        None => {
            return None;
        },
    }
    let v = content.substring_char(p, e);
    Some(v.to_owned())
}

/// Searches `content` for the page-title field and returns the title text;
/// `None` when no occurrence of the pattern exists.
pub fn grep_video_title(content: &str) -> (r: Option<String>)
    ensures
        match r {
            Some(v) => spec_grep_title(content@) == Some(v@),
            None => spec_grep_title(content@) is None,
        },
{
    let n = content.unicode_len();
    let mut i: usize = 0;
    while i < n
        invariant
            i <= n,
            n == content@.len(),
            title_from(content@, 0) == title_from(content@, i as int),
        decreases n - i,
    {
        match title_match_at(content, i) {
            Some(v) => {
                return Some(v);
            },
            None => {},
        }
        i += 1;
    }
    None
}

} // verus!
