//! Reading the identifier of an episode, a season or a short video out of a
//! link, and choosing the download route it calls for.

use vstd::prelude::*;
use crate::error::TaskError;
use crate::text::push_str;

verus! {

/// A character of the Unicode `White_Space` property.
pub open spec fn is_white_space(c: char) -> bool {
    ('\u{9}' <= c && c <= '\u{d}') || c == ' ' || c == '\u{85}' || c == '\u{a0}' || c
        == '\u{1680}' || ('\u{2000}' <= c && c <= '\u{200a}') || c == '\u{2028}' || c
        == '\u{2029}' || c == '\u{202f}' || c == '\u{205f}' || c == '\u{3000}'
}

/// The text without its leading white space.
pub open spec fn trim_start_ws(s: Seq<char>) -> Seq<char>
    decreases s.len(),
{
    if s.len() > 0 && is_white_space(s[0]) {
        trim_start_ws(s.drop_first())
    } else {
        s
    }
}

/// The text without its trailing white space.
pub open spec fn trim_end_ws(s: Seq<char>) -> Seq<char>
    decreases s.len(),
{
    if s.len() > 0 && is_white_space(s.last()) {
        trim_end_ws(s.drop_last())
    } else {
        s
    }
}

/// The text without leading and trailing white space.
pub open spec fn trimmed_of(s: Seq<char>) -> Seq<char> {
    trim_end_ws(trim_start_ws(s))
}

fn white_space(c: char) -> (r: bool)
    ensures
        r == is_white_space(c),
{
    ('\u{9}' <= c && c <= '\u{d}') || c == ' ' || c == '\u{85}' || c == '\u{a0}' || c
        == '\u{1680}' || ('\u{2000}' <= c && c <= '\u{200a}') || c == '\u{2028}' || c
        == '\u{2029}' || c == '\u{202f}' || c == '\u{205f}' || c == '\u{3000}'
}

/// Removes leading and trailing white space.
pub fn trim_str(s: &str) -> (r: &str)
    ensures
        r@ == trimmed_of(s@),
{
    let n = s.unicode_len();
    let mut b: usize = 0;
    assert(s@.subrange(0, n as int) == s@);
    while b < n && white_space(s.get_char(b))
        invariant
            n == s@.len(),
            b <= n,
            trim_start_ws(s@.subrange(b as int, n as int)) == trim_start_ws(s@),
        decreases n - b,
    {
        assert(s@.subrange(b as int, n as int).drop_first() == s@.subrange(b + 1, n as int));
        b = b + 1;
    }
    assert(trim_start_ws(s@.subrange(b as int, n as int)) == s@.subrange(b as int, n as int)) by {
        if b < n {
            assert(s@.subrange(b as int, n as int)[0] == s@[b as int]);
        }
    }
    let mut e: usize = n;
    while e > b && white_space(s.get_char(e - 1))
        invariant
            n == s@.len(),
            b <= e <= n,
            trim_end_ws(s@.subrange(b as int, e as int)) == trimmed_of(s@),
        decreases e,
    {
        assert(s@.subrange(b as int, e as int).drop_last() == s@.subrange(b as int, e - 1));
        e = e - 1;
    }
    assert(trim_end_ws(s@.subrange(b as int, e as int)) == s@.subrange(b as int, e as int)) by {
        if e > b {
            assert(s@.subrange(b as int, e as int).last() == s@[e - 1]);
        }
    }
    s.substring_char(b, e)
}

/// The identifiers found in a link. At most one of them is filled in by
/// `get_epid_season`.
#[derive(Debug, Clone)]
pub struct Video {
    pub ep_id: String,
    pub season_id: String,
    pub bv_id: String,
}

/// The part of a link before its first `?`.
pub open spec fn before_query(s: Seq<char>) -> Seq<char>
    decreases s.len(),
{
    if s.len() == 0 {
        s
    } else if s[0] == '?' {
        Seq::empty()
    } else {
        seq![s[0]] + before_query(s.drop_first())
    }
}

/// The path without its trailing slashes.
pub open spec fn without_trailing_slashes(p: Seq<char>) -> Seq<char>
    decreases p.len(),
{
    if p.len() > 0 && p.last() == '/' {
        without_trailing_slashes(p.drop_last())
    } else {
        p
    }
}

/// What follows the last slash of a path (all of it when it has none).
pub open spec fn after_last_slash(p: Seq<char>) -> Seq<char>
    decreases p.len(),
{
    if p.len() == 0 {
        p
    } else if p.last() == '/' {
        Seq::empty()
    } else {
        after_last_slash(p.drop_last()).push(p.last())
    }
}

/// The last non-empty `/`-separated segment of a path, or empty if none.
pub open spec fn last_segment(p: Seq<char>) -> Seq<char> {
    after_last_slash(without_trailing_slashes(p))
}

/// The text with every leading repetition of the two-character prefix `a b` removed.
pub open spec fn strip_repeated(s: Seq<char>, a: char, b: char) -> Seq<char>
    decreases s.len(),
{
    if s.len() >= 2 && s[0] == a && s[1] == b {
        strip_repeated(s.subrange(2, s.len() as int), a, b)
    } else {
        s
    }
}

pub open spec fn starts_with2(s: Seq<char>, a: char, b: char) -> bool {
    s.len() >= 2 && s[0] == a && s[1] == b
}

/// The identifier kind that an already trimmed link names, with its code.
pub open spec fn classify(u: Seq<char>) -> Option<(int, Seq<char>)> {
    let id = last_segment(before_query(u));
    if id.len() == 0 {
        None
    } else if starts_with2(id, 'e', 'p') {
        if strip_repeated(id, 'e', 'p').len() == 0 {
            None
        } else {
            Some((0, strip_repeated(id, 'e', 'p')))
        }
    } else if starts_with2(id, 's', 's') {
        if strip_repeated(id, 's', 's').len() == 0 {
            None
        } else {
            Some((1, strip_repeated(id, 's', 's')))
        }
    } else if starts_with2(id, 'B', 'V') {
        Some((2, id))
    } else if starts_with2(id, 'b', 'v') {
        Some((2, "BV"@ + strip_repeated(id, 'b', 'v')))
    } else {
        None
    }
}

/// The video that a classification stands for: kind 0 an episode, 1 a
/// season, 2 a short video.
pub open spec fn video_matches(v: Video, kind: int, code: Seq<char>) -> bool {
    &&& v.ep_id@ == (if kind == 0 { code } else { Seq::empty() })
    &&& v.season_id@ == (if kind == 1 { code } else { Seq::empty() })
    &&& v.bv_id@ == (if kind == 2 { code } else { Seq::empty() })
}

/// Exactly one of a video's identifiers is filled in.
pub open spec fn exactly_one_id(v: Video) -> bool {
    ||| v.ep_id@.len() > 0 && v.season_id@.len() == 0 && v.bv_id@.len() == 0
    ||| v.ep_id@.len() == 0 && v.season_id@.len() > 0 && v.bv_id@.len() == 0
    ||| v.ep_id@.len() == 0 && v.season_id@.len() == 0 && v.bv_id@.len() > 0
}

/// The link names no identifier that this library knows.
pub open spec fn is_unrecognised_link(e: TaskError) -> bool {
    e is InvalidUrl
}

fn find_query(s: &str) -> (r: usize)
    ensures
        r <= s@.len(),
        s@.subrange(0, r as int) == before_query(s@),
{
    let n = s.unicode_len();
    let mut k: usize = 0;
    while k < n && s.get_char(k) != '?'
        invariant
            n == s@.len(),
            k <= n,
            forall|j: int| 0 <= j < k ==> s@[j] != '?',
        decreases n - k,
    {
        k = k + 1;
    }
    proof {
        lemma_before_query(s@, k as int);
    }
    k
}

proof fn lemma_before_query(s: Seq<char>, k: int)
    requires
        0 <= k <= s.len(),
        forall|j: int| 0 <= j < k ==> s[j] != '?',
        k == s.len() || s[k] == '?',
    ensures
        s.subrange(0, k) == before_query(s),
    decreases s.len(),
{
    if s.len() > 0 && k > 0 {
        let t = s.drop_first();
        assert forall|j: int| 0 <= j < k - 1 implies t[j] != '?' by {
            assert(t[j] == s[j + 1]);
        }
        lemma_before_query(t, k - 1);
        assert(s.subrange(0, k) == seq![s[0]] + t.subrange(0, k - 1));
    }
}

proof fn lemma_trailing(p: Seq<char>, e: int)
    requires
        0 <= e < p.len(),
        p[e] == '/',
    ensures
        without_trailing_slashes(p.subrange(0, e + 1)) == without_trailing_slashes(p.subrange(0, e)),
{
    assert(p.subrange(0, e + 1).drop_last() == p.subrange(0, e));
}

proof fn lemma_after_slash_step(p: Seq<char>, b: int, e: int)
    requires
        0 < b <= e <= p.len(),
        p[b - 1] != '/',
        after_last_slash(p.subrange(0, e)) == after_last_slash(p.subrange(0, b)) + p.subrange(b, e),
    ensures
        after_last_slash(p.subrange(0, e)) == after_last_slash(p.subrange(0, b - 1)) + p.subrange(b - 1, e),
{
    let q = p.subrange(0, b);
    assert(q.drop_last() == p.subrange(0, b - 1));
    assert(q.last() == p[b - 1]);
    assert(after_last_slash(q) == after_last_slash(p.subrange(0, b - 1)).push(p[b - 1]));
    assert(p.subrange(b - 1, e) == seq![p[b - 1]] + p.subrange(b, e));
}

/// The last non-empty segment of the path part of a link.
fn last_segment_of(path: &str) -> (r: &str)
    ensures
        r@ == last_segment(path@),
{
    let n = path.unicode_len();
    let mut e: usize = n;
    assert(path@.subrange(0, n as int) == path@);
    while e > 0 && path.get_char(e - 1) == '/'
        invariant
            n == path@.len(),
            e <= n,
            without_trailing_slashes(path@.subrange(0, e as int)) == without_trailing_slashes(path@),
        decreases e,
    {
        proof {
            lemma_trailing(path@, e - 1);
        }
        e = e - 1;
    }
    let ghost q = path@.subrange(0, e as int);
    assert(without_trailing_slashes(q) == q) by {
        if e > 0 {
            assert(q.last() == path@[e - 1]);
        }
    }
    let mut b: usize = e;
    assert(path@.subrange(e as int, e as int) == Seq::<char>::empty());
    assert(path@.subrange(0, e as int) + Seq::<char>::empty() == path@.subrange(0, e as int));
    while b > 0 && path.get_char(b - 1) != '/'
        invariant
            n == path@.len(),
            b <= e <= n,
            after_last_slash(path@.subrange(0, e as int)) == after_last_slash(
                path@.subrange(0, b as int),
            ) + path@.subrange(b as int, e as int),
        decreases b,
    {
        proof {
            lemma_after_slash_step(path@, b as int, e as int);
        }
        b = b - 1;
    }
    assert(after_last_slash(path@.subrange(0, b as int)) == Seq::<char>::empty()) by {
        if b > 0 {
            let q = path@.subrange(0, b as int);
            assert(q.last() == path@[b - 1]);
        }
    }
    path.substring_char(b, e)
}

/// Index just past every leading repetition of the prefix `a b`.
fn skip_repeated(s: &str, a: char, b: char) -> (r: usize)
    ensures
        r <= s@.len(),
        s@.subrange(r as int, s@.len() as int) == strip_repeated(s@, a, b),
{
    let n = s.unicode_len();
    let mut k: usize = 0;
    assert(s@.subrange(0, n as int) == s@);
    while n - k >= 2 && s.get_char(k) == a && s.get_char(k + 1) == b
        invariant
            n == s@.len(),
            k <= n,
            strip_repeated(s@.subrange(k as int, n as int), a, b) == strip_repeated(s@, a, b),
        decreases n - k,
    {
        proof {
            let t = s@.subrange(k as int, n as int);
            assert(t.subrange(2, t.len() as int) == s@.subrange(k + 2, n as int));
        }
        k = k + 2;
    }
    k
}

fn starts_with_pair(s: &str, a: char, b: char) -> (r: bool)
    ensures
        r == starts_with2(s@, a, b),
{
    s.unicode_len() >= 2 && s.get_char(0) == a && s.get_char(1) == b
}

/// Reads the identifier out of a link that has already been trimmed.
pub fn video_from_trimmed(u: &str) -> (r: Result<Video, TaskError>)
    ensures
        classify(u@) is None <==> r is Err,
        r is Err ==> is_unrecognised_link(r->Err_0),
        r matches Ok(v) ==> video_matches(v, classify(u@)->Some_0.0, classify(u@)->Some_0.1),
        r matches Ok(v) ==> exactly_one_id(v),
{
    let k = find_query(u);
    let path = u.substring_char(0, k);
    let id = last_segment_of(path);
    let n = id.unicode_len();
    if n == 0 {
        return Err(TaskError::InvalidUrl(String::from_str("no identifier in the link path")));
    }
    if starts_with_pair(id, 'e', 'p') {
        let s = skip_repeated(id, 'e', 'p');
        if s == n {
            return Err(TaskError::InvalidUrl(String::from_str("no episode number in the link")));
        }
        Ok(Video {
            ep_id: String::from_str(id.substring_char(s, n)),
            season_id: String::new(),
            bv_id: String::new(),
        })
    } else if starts_with_pair(id, 's', 's') {
        let s = skip_repeated(id, 's', 's');
        if s == n {
            return Err(TaskError::InvalidUrl(String::from_str("no season number in the link")));
        }
        Ok(Video {
            ep_id: String::new(),
            season_id: String::from_str(id.substring_char(s, n)),
            bv_id: String::new(),
        })
    } else if starts_with_pair(id, 'B', 'V') {
        Ok(Video { ep_id: String::new(), season_id: String::new(), bv_id: String::from_str(id) })
    } else if starts_with_pair(id, 'b', 'v') {
        let s = skip_repeated(id, 'b', 'v');
        let mut bv = String::from_str("BV");
        proof {
            reveal_strlit("BV");
        }
        push_str(&mut bv, id.substring_char(s, n));
        Ok(Video { ep_id: String::new(), season_id: String::new(), bv_id: bv })
    } else {
        Err(TaskError::InvalidUrl(String::from_str("no episode, season or video identifier")))
    }
}

/// Reads the identifier of an episode (`ep…`), a season (`ss…`) or a short
/// video (`BV…`, or `bv…` written as `BV…`) from the last non-empty path
/// segment of a link, after trimming the link and dropping its query.
pub fn get_epid_season(url: &str) -> (r: Result<Video, TaskError>)
    ensures
        classify(trimmed_of(url@)) is None <==> r is Err,
        r is Err ==> is_unrecognised_link(r->Err_0),
        r matches Ok(v) ==> video_matches(
            v,
            classify(trimmed_of(url@))->Some_0.0,
            classify(trimmed_of(url@))->Some_0.1,
        ),
        r matches Ok(v) ==> exactly_one_id(v),
{
    let t = trim_str(url);
    video_from_trimmed(t)
}

/// Which download route a video takes.
#[derive(Debug, Clone, Copy, PartialEq, Eq)]
pub enum Route {
    /// Episodic content: an episode, or every episode of a season.
    Episodic,
    /// A short video.
    ShortVideo,
}

impl Video {
    /// Episodic content when an episode or season is named, else a short
    /// video when one is named; an error when nothing is.
    pub fn route(&self) -> (r: Result<Route, TaskError>)
        ensures
            (self.ep_id@.len() > 0 || self.season_id@.len() > 0) ==> r == Ok::<Route, TaskError>(
                Route::Episodic),
            (self.ep_id@.len() == 0 && self.season_id@.len() == 0 && self.bv_id@.len() > 0) ==> r
                == Ok::<Route, TaskError>(Route::ShortVideo),
            (self.ep_id@.len() == 0 && self.season_id@.len() == 0 && self.bv_id@.len() == 0) ==> (r
                matches Err(e) && is_unrecognised_link(e)),
    {
        if self.ep_id.unicode_len() > 0 || self.season_id.unicode_len() > 0 {
            Ok(Route::Episodic)
        } else if self.bv_id.unicode_len() > 0 {
            Ok(Route::ShortVideo)
        } else {
            Err(TaskError::InvalidUrl(String::from_str("no valid video identifier")))
        }
    }
}

} // verus!
