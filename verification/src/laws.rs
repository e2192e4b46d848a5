//! General properties of the extraction patterns and of the request unit,
//! stated and proved over the same spec functions the contracts use.

use vstd::prelude::*;

use crate::pattern::{
    find_from, gap_end_from, grep_from, is_gap_char, key_of, match_at, occurs_at,
    ratelimit_suffix, spec_grep, title_at, title_close, title_from, title_open, value_at,
};
use crate::video::{spec_video_title, spec_video_url, Error, FbVideo, Quality};

verus! {

/// `gap_end_from` lands exactly at `e` when whitespace fills `[j, e)` and
/// stops there.
proof fn lemma_gap_end_from_exact(s: Seq<char>, j: int, e: int)
    requires
        0 <= j <= e <= s.len(),
        forall|t: int| j <= t < e ==> is_gap_char(s[t]),
        e == s.len() || !is_gap_char(s[e]),
    ensures
        gap_end_from(s, j) == e,
    decreases e - j,
{
    if j < e {
        assert(is_gap_char(s[j]));
        lemma_gap_end_from_exact(s, j + 1, e);
    }
}

/// Where `gap_end_from` lands: no earlier than `j`, no later than the end,
/// with whitespace filling everything in between.
proof fn lemma_gap_end_from_props(s: Seq<char>, j: int)
    requires
        0 <= j <= s.len(),
    ensures
        j <= gap_end_from(s, j) <= s.len(),
        forall|t: int| j <= t < gap_end_from(s, j) ==> is_gap_char(s[t]),
    decreases s.len() - j,
{
    if j < s.len() && is_gap_char(s[j]) {
        lemma_gap_end_from_props(s, j + 1);
    }
}

/// `find_from` lands exactly at `e` when `c` is absent from `[j, e)` and
/// present at `e`.
proof fn lemma_find_from_exact(s: Seq<char>, c: char, j: int, e: int)
    requires
        0 <= j <= e <= s.len(),
        forall|t: int| j <= t < e ==> s[t] != c,
        e == s.len() || s[e] == c,
    ensures
        find_from(s, c, j) == e,
    decreases e - j,
{
    if j < e {
        lemma_find_from_exact(s, c, j + 1, e);
    }
}

/// Where `find_from` lands: within bounds, on an occurrence of `c` if one
/// exists, with `c` absent from everything in between.
proof fn lemma_find_from_props(s: Seq<char>, c: char, j: int)
    requires
        0 <= j <= s.len(),
    ensures
        j <= find_from(s, c, j) <= s.len(),
        find_from(s, c, j) < s.len() ==> s[find_from(s, c, j)] == c,
        forall|t: int| j <= t < find_from(s, c, j) ==> s[t] != c,
    decreases s.len() - j,
{
    if j < s.len() && s[j] != c {
        lemma_find_from_props(s, c, j + 1);
    }
}

/// Outside the body, nothing matches the URL pattern.
proof fn lemma_match_at_out_of_range(s: Seq<char>, key: Seq<char>, j: int)
    requires
        j < 0 || j >= s.len(),
    ensures
        match_at(s, key, j) is None,
{
    if j >= s.len() && occurs_at(s, key, j) {
        reveal_strlit("_no_ratelimit");
        assert(!occurs_at(s, ratelimit_suffix(), j + key.len()));
    }
}

/// Outside the body, nothing matches the title pattern.
proof fn lemma_title_at_out_of_range(s: Seq<char>, j: int)
    requires
        j < 0 || j >= s.len(),
    ensures
        title_at(s, j) is None,
{
    if j >= s.len() && occurs_at(s, title_open(), j) {
        reveal_strlit("title id=\"pageTitle\">");
        assert(false);
    }
}

/// What the leftmost search returns, characterized position by position.
proof fn lemma_grep_from_char(s: Seq<char>, key: Seq<char>, lo: int)
    requires
        0 <= lo <= s.len(),
    ensures
        match grep_from(s, key, lo) {
            Some(v) => exists|j: int|
                #![trigger match_at(s, key, j)]
                lo <= j < s.len() && match_at(s, key, j) == Some(v) && (forall|t: int|
                    lo <= t < j ==> match_at(s, key, t) is None),
            None => forall|t: int| lo <= t < s.len() ==> match_at(s, key, t) is None,
        },
    decreases s.len() - lo,
{
    if lo < s.len() {
        match match_at(s, key, lo) {
            Some(v) => {
                assert(lo <= lo < s.len() && match_at(s, key, lo) == Some(v) && (forall|t: int|
                    lo <= t < lo ==> match_at(s, key, t) is None));
            },
            None => {
                lemma_grep_from_char(s, key, lo + 1);
            },
        }
    }
}

/// What the leftmost title search returns, position by position.
proof fn lemma_title_from_char(s: Seq<char>, lo: int)
    requires
        0 <= lo <= s.len(),
    ensures
        match title_from(s, lo) {
            Some(v) => exists|j: int|
                #![trigger title_at(s, j)]
                lo <= j < s.len() && title_at(s, j) == Some(v) && (forall|t: int|
                    lo <= t < j ==> title_at(s, t) is None),
            None => forall|t: int| lo <= t < s.len() ==> title_at(s, t) is None,
        },
    decreases s.len() - lo,
{
    if lo < s.len() {
        match title_at(s, lo) {
            Some(v) => {
                assert(lo <= lo < s.len() && title_at(s, lo) == Some(v) && (forall|t: int|
                    lo <= t < lo ==> title_at(s, t) is None));
            },
            None => {
                lemma_title_from_char(s, lo + 1);
            },
        }
    }
}

/// The URL query returns the value of the leftmost position where the
/// pattern matches, and fails with `InvalidUrl` exactly when no position
/// matches.
pub proof fn lemma_url_query_characterization(body: Seq<char>, quality: Quality)
    ensures
        match spec_video_url(body, quality) {
            Ok(v) => exists|j: int|
                #![trigger match_at(body, key_of(quality), j)]
                0 <= j < body.len() && match_at(body, key_of(quality), j) == Some(v) && (
                forall|t: int| 0 <= t < j ==> match_at(body, key_of(quality), t) is None),
            Err(e) => e == Error::InvalidUrl && (forall|t: int|
                match_at(body, key_of(quality), t) is None),
        },
{
    lemma_grep_from_char(body, key_of(quality), 0);
    if spec_grep(body, key_of(quality)) is None {
        assert forall|t: int| match_at(body, key_of(quality), t) is None by {
            if !(0 <= t < body.len()) {
                lemma_match_at_out_of_range(body, key_of(quality), t);
            }
        }
    }
}

/// If any position of the body carries a media-URL field for the requested
/// quality, the URL query succeeds.
pub proof fn lemma_url_query_complete(body: Seq<char>, quality: Quality, i: int)
    requires
        match_at(body, key_of(quality), i) is Some,
    ensures
        spec_video_url(body, quality) is Ok,
{
    lemma_url_query_characterization(body, quality);
}

/// A body in which the quality's key never occurs yields `InvalidUrl`.
pub proof fn lemma_url_query_fails_without_key(body: Seq<char>, quality: Quality)
    requires
        forall|j: int| !occurs_at(body, key_of(quality), j),
    ensures
        spec_video_url(body, quality) == Err::<Seq<char>, Error>(Error::InvalidUrl),
{
    lemma_url_query_characterization(body, quality);
    if spec_video_url(body, quality) is Ok {
        let j = choose|j: int|
            #![trigger match_at(body, key_of(quality), j)]
            0 <= j < body.len() && match_at(body, key_of(quality), j) is Some;
        assert(occurs_at(body, key_of(quality), j));
    }
}

/// The URL query returns exactly the value matched at `i` whenever no
/// earlier position matches: the leftmost field decides.
pub proof fn lemma_url_query_exact(body: Seq<char>, quality: Quality, i: int)
    requires
        0 <= i < body.len(),
        match_at(body, key_of(quality), i) is Some,
        forall|t: int| 0 <= t < i ==> match_at(body, key_of(quality), t) is None,
    ensures
        spec_video_url(body, quality) == Ok::<Seq<char>, Error>(
            match_at(body, key_of(quality), i)->0,
        ),
{
    lemma_url_query_characterization(body, quality);
    match spec_video_url(body, quality) {
        Ok(w) => {
            let j = choose|j: int|
                #![trigger match_at(body, key_of(quality), j)]
                0 <= j < body.len() && match_at(body, key_of(quality), j) == Some(w) && (
                forall|t: int| 0 <= t < j ==> match_at(body, key_of(quality), t) is None);
            if j < i {
                assert(match_at(body, key_of(quality), j) is None);
            }
            if j > i {
                assert(match_at(body, key_of(quality), i) is None);
            }
        },
        Err(_) => {
            assert(match_at(body, key_of(quality), i) is None);
        },
    }
}

/// A bare key followed by a well-shaped value matches, taking the value
/// right after the key's colon: the rate-limit branch cannot fire, as the
/// colon rules the marker out.
pub proof fn lemma_plain_field_matches(s: Seq<char>, key: Seq<char>, i: int)
    requires
        occurs_at(s, key, i),
        value_at(s, i + key.len()) is Some,
    ensures
        match_at(s, key, i) == value_at(s, i + key.len()),
{
    let j = i + key.len() as int;
    if occurs_at(s, ratelimit_suffix(), j) {
        reveal_strlit("_no_ratelimit");
        assert(s.subrange(j, j + ratelimit_suffix().len() as int)[0] == s[j]);
        assert(false);
    }
}

/// A rate-limit-suffixed key followed by a well-shaped value matches,
/// taking the value after the marker.
pub proof fn lemma_suffixed_field_matches(s: Seq<char>, key: Seq<char>, i: int)
    requires
        occurs_at(s, key, i),
        occurs_at(s, ratelimit_suffix(), i + key.len()),
        value_at(s, i + key.len() + ratelimit_suffix().len()) is Some,
    ensures
        match_at(s, key, i) == value_at(s, i + key.len() + ratelimit_suffix().len()),
{
}

/// A colon, whitespace, and a nonempty quote-free run enclosed in quotes is
/// a well-shaped value, and the quotes and whitespace are stripped from it.
pub proof fn lemma_value_at_layout(s: Seq<char>, j: int, gap: int, x: Seq<char>)
    requires
        0 <= j,
        gap >= 0,
        j + 2 + gap + x.len() < s.len(),
        s[j] == ':',
        forall|t: int| j + 1 <= t < j + 1 + gap ==> is_gap_char(s[t]),
        s[j + 1 + gap] == '"',
        x.len() > 0,
        forall|t: int| 0 <= t < x.len() ==> x[t] != '"',
        s.subrange(j + 2 + gap, j + 2 + gap + x.len() as int) == x,
        s[j + 2 + gap + x.len() as int] == '"',
    ensures
        value_at(s, j) == Some(x),
{
    assert(!is_gap_char('"'));
    lemma_gap_end_from_exact(s, j + 1, j + 1 + gap);
    let vstart = j + 2 + gap;
    let vend = j + 2 + gap + x.len() as int;
    assert forall|t: int| vstart <= t < vend implies s[t] != '"' by {
        assert(s.subrange(vstart, vend)[t - vstart] == s[t]);
    }
    lemma_find_from_exact(s, '"', vstart, vend);
}

/// Whatever value the pattern captures is nonempty and free of double
/// quotes: the enclosing quotes are no part of it.
pub proof fn lemma_value_shape(s: Seq<char>, j: int)
    requires
        value_at(s, j) is Some,
    ensures
        value_at(s, j)->0.len() > 0,
        forall|t: int| 0 <= t < value_at(s, j)->0.len() ==> value_at(s, j)->0[t] != '"',
{
    lemma_gap_end_from_props(s, j + 1);
    let q = gap_end_from(s, j + 1);
    lemma_find_from_props(s, '"', q + 1);
    let e = find_from(s, '"', q + 1);
    let v = value_at(s, j)->0;
    assert forall|t: int| 0 <= t < v.len() implies v[t] != '"' by {
        assert(v[t] == s[q + 1 + t]);
    }
}

/// A successful URL query returns a nonempty value holding no double quote.
pub proof fn lemma_url_value_shape(body: Seq<char>, quality: Quality)
    requires
        spec_video_url(body, quality) is Ok,
    ensures
        spec_video_url(body, quality)->Ok_0.len() > 0,
        forall|t: int|
            0 <= t < spec_video_url(body, quality)->Ok_0.len()
                ==> spec_video_url(body, quality)->Ok_0[t] != '"',
{
    lemma_url_query_characterization(body, quality);
    let key = key_of(quality);
    let j = choose|j: int|
        #![trigger match_at(body, key, j)]
        0 <= j < body.len() && match_at(body, key, j) == Some(spec_video_url(body, quality)->Ok_0);
    let after_key = j + key.len() as int;
    if occurs_at(body, ratelimit_suffix(), after_key) && value_at(
        body,
        after_key + ratelimit_suffix().len(),
    ) is Some {
        lemma_value_shape(body, after_key + ratelimit_suffix().len());
    } else {
        lemma_value_shape(body, after_key);
    }
}

/// The title query returns the text of the leftmost position where the
/// title pattern matches, and fails with `InvalidUrl` exactly when no
/// position matches.
pub proof fn lemma_title_query_characterization(body: Seq<char>)
    ensures
        match spec_video_title(body) {
            Ok(v) => exists|j: int|
                #![trigger title_at(body, j)]
                0 <= j < body.len() && title_at(body, j) == Some(v) && (forall|t: int|
                    0 <= t < j ==> title_at(body, t) is None),
            Err(e) => e == Error::InvalidUrl && (forall|t: int| title_at(body, t) is None),
        },
{
    lemma_title_from_char(body, 0);
    if title_from(body, 0) is None {
        assert forall|t: int| title_at(body, t) is None by {
            if !(0 <= t < body.len()) {
                lemma_title_at_out_of_range(body, t);
            }
        }
    }
}

/// If any position of the body carries a title field, the title query
/// succeeds.
pub proof fn lemma_title_query_complete(body: Seq<char>, i: int)
    requires
        title_at(body, i) is Some,
    ensures
        spec_video_title(body) is Ok,
{
    lemma_title_query_characterization(body);
}

/// The opening literal, a nonempty run without `<`, and the closing literal
/// in direct succession form a matching title field, capturing exactly that
/// run.
pub proof fn lemma_title_field_matches(s: Seq<char>, i: int, x: Seq<char>)
    requires
        occurs_at(s, title_open(), i),
        x.len() > 0,
        forall|t: int| 0 <= t < x.len() ==> x[t] != '<',
        occurs_at(s, x, i + title_open().len()),
        occurs_at(s, title_close(), i + title_open().len() + x.len()),
    ensures
        title_at(s, i) == Some(x),
{
    let p = i + title_open().len() as int;
    let e = p + x.len() as int;
    reveal_strlit("</title>");
    assert(s.subrange(e, e + title_close().len() as int)[0] == s[e]);
    assert(s[e] == '<');
    assert forall|t: int| p <= t < e implies s[t] != '<' by {
        assert(s.subrange(p, e)[t - p] == s[t]);
    }
    lemma_find_from_exact(s, '<', p, e);
    assert(s.subrange(p, e) == x);
}

/// The title query returns exactly the text matched at `i` whenever no
/// earlier position matches: the leftmost field decides.
pub proof fn lemma_title_query_exact(body: Seq<char>, i: int)
    requires
        0 <= i < body.len(),
        title_at(body, i) is Some,
        forall|t: int| 0 <= t < i ==> title_at(body, t) is None,
    ensures
        spec_video_title(body) == Ok::<Seq<char>, Error>(title_at(body, i)->0),
{
    lemma_title_query_characterization(body);
    match spec_video_title(body) {
        Ok(w) => {
            let j = choose|j: int|
                #![trigger title_at(body, j)]
                0 <= j < body.len() && title_at(body, j) == Some(w) && (forall|t: int|
                    0 <= t < j ==> title_at(body, t) is None);
            if j < i {
                assert(title_at(body, j) is None);
            }
            if j > i {
                assert(title_at(body, i) is None);
            }
        },
        Err(_) => {
            assert(title_at(body, i) is None);
        },
    }
}

/// Quality selection is independent of title extraction: two requests whose
/// cached bodies agree yield the same title, whatever their quality tiers.
pub proof fn lemma_title_ignores_quality(a: FbVideo, b: FbVideo)
    requires
        a.spec_content() == b.spec_content(),
        a.spec_content() is Some,
    ensures
        spec_video_title(a.spec_content()->0) == spec_video_title(b.spec_content()->0),
{
}

/// Querying an unchanged instance twice yields the same result both times:
/// both query results are functions of the cached body (and, for the URL,
/// the quality tier) alone, and a populated cache satisfies no further
/// `needs_fetch`, so the single fetch that filled it is never repeated.
pub proof fn lemma_repeat_query_stable(
    v: FbVideo,
    r1: Result<Seq<char>, Error>,
    r2: Result<Seq<char>, Error>,
)
    requires
        v.spec_content() is Some,
        r1 == spec_video_url(v.spec_content()->0, v.spec_quality()),
        r2 == spec_video_url(v.spec_content()->0, v.spec_quality()),
    ensures
        r1 == r2,
        !(v.spec_content() is None),
{
}

} // verus!
