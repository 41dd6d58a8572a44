//! Decisions of the QR-code login: when to poll again, when to give up, and
//! how the credential is read out of the confirmation link.

use vstd::prelude::*;
use crate::text::{push_char, push_str, texts};

verus! {

/// Seconds between two polls of the login status.
pub const POLL_INTERVAL_SECS: u64 = 3;

/// Seconds after which an unconfirmed login is abandoned.
pub const LOGIN_TIMEOUT_SECS: u64 = 180;

/// What the login flow does after one status reply.
#[derive(Debug, Clone)]
pub enum PollDecision {
    /// The code was confirmed: this text carries the credential.
    LoggedIn(String),
    /// Not confirmed yet: wait and poll again.
    Wait,
    /// The service refused the request outright.
    Refused,
}

/// The running state of one login attempt.
#[derive(Debug, Clone, Copy, PartialEq, Eq)]
pub struct LoginPoll {
    /// Seconds spent waiting so far.
    pub waited_secs: u64,
}

/// The text that carries the credential: the confirmation link with the
/// refresh token appended as one more query parameter.
pub open spec fn credential_text(url: Seq<char>, token: Seq<char>) -> Seq<char> {
    url + "&refresh_token="@ + token
}

impl LoginPoll {
    pub fn new() -> (r: Self)
        ensures
            r.waited_secs == 0,
    {
        LoginPoll { waited_secs: 0 }
    }

    /// Decides from one status reply: a non-zero outer code is a refusal; a
    /// zero inner code a confirmed login; anything else means waiting.
    pub fn on_reply(&self, code: i64, status: i64, url: &str, refresh_token: &str) -> (r: PollDecision)
        ensures
            code != 0 ==> r is Refused,
            code == 0 && status == 0 ==> (r matches PollDecision::LoggedIn(t) && t@ == credential_text(
                url@,
                refresh_token@,
            )),
            code == 0 && status != 0 ==> r is Wait,
    {
        if code != 0 {
            PollDecision::Refused
        } else if status == 0 {
            let mut t = String::from_str(url);
            push_str(&mut t, "&refresh_token=");
            push_str(&mut t, refresh_token);
            PollDecision::LoggedIn(t)
        } else {
            PollDecision::Wait
        }
    }

    /// Accounts for one wait between polls; true when the login has now
    /// timed out.
    pub fn after_wait(&mut self) -> (timed_out: bool)
        ensures
            final(self).waited_secs == if old(self).waited_secs + POLL_INTERVAL_SECS > u64::MAX {
                u64::MAX as int
            } else {
                old(self).waited_secs + POLL_INTERVAL_SECS
            },
            timed_out == (final(self).waited_secs >= LOGIN_TIMEOUT_SECS),
    {
        self.waited_secs = self.waited_secs.saturating_add(POLL_INTERVAL_SECS);
        self.waited_secs >= LOGIN_TIMEOUT_SECS
    }
}

/// The pieces of a text between occurrences of a separator, in order; one
/// piece (the whole text) when the separator does not occur.
pub open spec fn split_on(s: Seq<char>, sep: char) -> Seq<Seq<char>>
    decreases s.len(),
{
    if s.len() == 0 {
        seq![Seq::empty()]
    } else {
        let r = split_on(s.drop_last(), sep);
        if s.last() == sep {
            r.push(Seq::empty())
        } else {
            r.update(r.len() - 1, r.last().push(s.last()))
        }
    }
}

proof fn lemma_split_nonempty(s: Seq<char>, sep: char)
    ensures
        split_on(s, sep).len() >= 1,
    decreases s.len(),
{
    if s.len() > 0 {
        lemma_split_nonempty(s.drop_last(), sep);
    }
}

/// Splits a text at every occurrence of a separator.
pub fn split_text(s: &str, sep: char) -> (r: Vec<String>)
    ensures
        texts(r@) == split_on(s@, sep),
{
    let n = s.unicode_len();
    let mut parts: Vec<String> = Vec::new();
    let mut cur = String::new();
    let mut i: usize = 0;
    assert(s@.subrange(0, 0) == Seq::<char>::empty());
    assert(texts(parts@).push(cur@) =~= split_on(s@.subrange(0, 0), sep));
    while i < n
        invariant
            n == s@.len(),
            i <= n,
            texts(parts@).push(cur@) == split_on(s@.subrange(0, i as int), sep),
        decreases n - i,
    {
        let c = s.get_char(i);
        proof {
            let pre = s@.subrange(0, i + 1);
            assert(pre.drop_last() == s@.subrange(0, i as int));
            assert(pre.last() == c);
            lemma_split_nonempty(s@.subrange(0, i as int), sep);
        }
        if c == sep {
            let done = cur;
            parts.push(done);
            cur = String::new();
            assert(texts(parts@).push(cur@) =~= split_on(s@.subrange(0, i + 1), sep));
        } else {
            push_char(&mut cur, c);
            assert(texts(parts@).push(cur@) =~= split_on(s@.subrange(0, i + 1), sep));
        }
        i = i + 1;
    }
    assert(s@.subrange(0, n as int) == s@);
    parts.push(cur);
    assert(texts(parts@) =~= split_on(s@, sep));
    parts
}

/// Bytes that percent-encoding keeps as they are: ASCII letters and digits,
/// `-`, `.`, `_` and `~`.
pub open spec fn is_url_safe(b: u8) -> bool {
    (48 <= b && b <= 57) || (65 <= b && b <= 90) || (97 <= b && b <= 122) || b == 45 || b == 46
        || b == 95 || b == 126
}

/// The upper-case hex digit of a value in `0..16`.
pub open spec fn hex_upper(n: int) -> char {
    if n < 10 {
        crate::text::digit_char(n)
    } else if n == 10 {
        'A'
    } else if n == 11 {
        'B'
    } else if n == 12 {
        'C'
    } else if n == 13 {
        'D'
    } else if n == 14 {
        'E'
    } else {
        'F'
    }
}

/// Percent-encoding of bytes: a safe byte stands for itself, any other
/// becomes `%` and two upper-case hex digits, high half first.
pub open spec fn percent_bytes(b: Seq<u8>) -> Seq<char>
    decreases b.len(),
{
    if b.len() == 0 {
        Seq::empty()
    } else {
        percent_bytes(b.drop_last()) + if is_url_safe(b.last()) {
            seq![b.last() as char]
        } else {
            seq!['%', hex_upper(b.last() as int / 16), hex_upper(b.last() as int % 16)]
        }
    }
}

/// The percent-encoding of a text's UTF-8 bytes.
pub open spec fn url_encoded(s: Seq<char>) -> Seq<char> {
    percent_bytes(vstd::utf8::encode_utf8(s))
}

/// Relies on `urlencoding::encode`: every UTF-8 byte of the text except
/// ASCII letters, digits, `-`, `.`, `_` and `~` becomes `%` and two
/// upper-case hex digits; the others are kept, in order.
#[verifier::external_body]
fn url_encode(s: &str) -> (r: String)
    ensures
        r@ == url_encoded(s@),
{
    urlencoding::encode(s).into_owned()
}

/// Why a confirmation link could not be read.
#[derive(Debug, Clone, PartialEq, Eq)]
pub enum CredentialError {
    /// The link has no query part.
    NoQuery,
    /// A query parameter has no `=`.
    NoValue,
}

/// The name of a `name=value` parameter and its value, percent-encoded;
/// `None` when it has no `=`.
pub open spec fn param_pair(p: Seq<char>) -> Option<(Seq<char>, Seq<char>)> {
    let kv = split_on(p, '=');
    if kv.len() < 2 {
        None
    } else {
        Some((kv[0], url_encoded(kv[1])))
    }
}

/// The parameters of the query part of a link (the text between its first
/// and second `?`), split at `&`.
pub open spec fn query_params(text: Seq<char>) -> Option<Seq<Seq<char>>> {
    let parts = split_on(text, '?');
    if parts.len() < 2 {
        None
    } else {
        Some(split_on(parts[1], '&'))
    }
}

/// The credential's name-value pairs, in the order the link gives them.
pub fn credential_pairs(text: &str) -> (r: Result<Vec<(String, String)>, CredentialError>)
    ensures
        query_params(text@) is None <==> r == Err::<Vec<(String, String)>, CredentialError>(
            CredentialError::NoQuery),
        query_params(text@) matches Some(ps) ==> {
            &&& (exists|i: int| 0 <= i < ps.len() && param_pair(#[trigger] ps[i]) is None) <==> r
                == Err::<Vec<(String, String)>, CredentialError>(CredentialError::NoValue)
            &&& r matches Ok(v) ==> v@.len() == ps.len() && forall|i: int|
                0 <= i < ps.len() ==> param_pair(ps[i]) == Some(
                    ((#[trigger] v@[i]).0@, v@[i].1@),
                )
        },
{
    let parts = split_text(text, '?');
    if parts.len() < 2 {
        return Err(CredentialError::NoQuery);
    }
    let params = split_text(parts[1].as_str(), '&');
    let ghost ps = split_on(texts(parts@)[1], '&');
    assert(texts(params@) == ps);
    let mut out: Vec<(String, String)> = Vec::new();
    let mut i: usize = 0;
    while i < params.len()
        invariant
            texts(params@) == ps,
            query_params(text@) == Some(ps),
            i <= params@.len(),
            out@.len() == i,
            forall|k: int| 0 <= k < i ==> param_pair(ps[k]) == Some(
                ((#[trigger] out@[k]).0@, out@[k].1@),
            ),
        decreases params@.len() - i,
    {
        let kv = split_text(params[i].as_str(), '=');
        assert(ps[i as int] == params@[i as int]@);
        if kv.len() < 2 {
            assert(param_pair(ps[i as int]) is None);
            return Err(CredentialError::NoValue);
        }
        let key = kv[0].clone();
        let value = url_encode(kv[1].as_str());
        assert(kv@[0]@ == texts(kv@)[0]);
        assert(kv@[1]@ == texts(kv@)[1]);
        out.push((key, value));
        i = i + 1;
    }
    proof {
        assert forall|k: int| 0 <= k < ps.len() implies param_pair(#[trigger] ps[k]) is Some by {
            assert(param_pair(ps[k]) == Some((out@[k].0@, out@[k].1@)));
        }
    }
    Ok(out)
}

} // verus!
