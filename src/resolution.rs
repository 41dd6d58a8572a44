//! Quality mapper: mapping between human quality labels, the provider's
//! numeric quality codes, and the manifest-format flags.

use vstd::prelude::*;
use crate::text::str_eq;

verus! {

/// Quality code (as decimal text) for a label; empty for an unknown label.
pub open spec fn qn_spec(s: Seq<char>) -> Seq<char> {
    if s == "HDR"@ {
        "125"@
    } else if s == "4K"@ {
        "120"@
    } else if s == "1080P+"@ {
        "112"@
    } else if s == "1080P60"@ {
        "116"@
    } else if s == "1080P"@ {
        "80"@
    } else if s == "720P"@ {
        "64"@
    } else if s == "480P"@ {
        "32"@
    } else if s == "360P"@ {
        "16"@
    } else {
        ""@
    }
}

/// Manifest-format flags for a label; `"16"` when the label asks for nothing special.
pub open spec fn fnval_spec(s: Seq<char>) -> Seq<char> {
    if s == "HDR"@ {
        "80"@
    } else if s == "4K"@ {
        "144"@
    } else {
        "16"@
    }
}

/// Label for a quality code given as decimal text; empty for an unknown code.
pub open spec fn rsl_spec(s: Seq<char>) -> Seq<char> {
    if s == "125"@ {
        "HDR"@
    } else if s == "120"@ {
        "4K"@
    } else if s == "112"@ {
        "1080P+"@
    } else if s == "116"@ {
        "1080P60"@
    } else if s == "80"@ {
        "1080P"@
    } else if s == "64"@ {
        "720P"@
    } else if s == "32"@ {
        "480P"@
    } else if s == "16"@ {
        "360P"@
    } else {
        ""@
    }
}

/// Label for a numeric quality code; empty for an unknown code.
pub open spec fn label_for_code_spec(code: int) -> Seq<char> {
    if code == 125 {
        "HDR"@
    } else if code == 120 {
        "4K"@
    } else if code == 112 {
        "1080P+"@
    } else if code == 116 {
        "1080P60"@
    } else if code == 80 {
        "1080P"@
    } else if code == 64 {
        "720P"@
    } else if code == 32 {
        "480P"@
    } else if code == 16 {
        "360P"@
    } else {
        ""@
    }
}

/// The provider's quality code for a label, as decimal text, or the empty
/// string when the label is not one of the known tiers.
pub fn qn(s: &str) -> (r: &str)
    ensures
        r@ == qn_spec(s@),
{
    if str_eq(s, "HDR") {
        "125"
    } else if str_eq(s, "4K") {
        "120"
    } else if str_eq(s, "1080P+") {
        "112"
    } else if str_eq(s, "1080P60") {
        "116"
    } else if str_eq(s, "1080P") {
        "80"
    } else if str_eq(s, "720P") {
        "64"
    } else if str_eq(s, "480P") {
        "32"
    } else if str_eq(s, "360P") {
        "16"
    } else {
        ""
    }
}

/// The manifest-format flags to request for a label; `"16"` by default.
pub fn fnval(s: &str) -> (r: &str)
    ensures
        r@ == fnval_spec(s@),
{
    if str_eq(s, "HDR") {
        "80"
    } else if str_eq(s, "4K") {
        "144"
    } else {
        "16"
    }
}

/// The label of a quality code given as decimal text, or the empty string.
pub fn rsl(s: &str) -> (r: &str)
    ensures
        r@ == rsl_spec(s@),
{
    if str_eq(s, "125") {
        "HDR"
    } else if str_eq(s, "120") {
        "4K"
    } else if str_eq(s, "112") {
        "1080P+"
    } else if str_eq(s, "116") {
        "1080P60"
    } else if str_eq(s, "80") {
        "1080P"
    } else if str_eq(s, "64") {
        "720P"
    } else if str_eq(s, "32") {
        "480P"
    } else if str_eq(s, "16") {
        "360P"
    } else {
        ""
    }
}

/// The label of a numeric quality code, or the empty string.
pub fn label_for_code(code: i64) -> (r: &'static str)
    ensures
        r@ == label_for_code_spec(code as int),
{
    if code == 125 {
        "HDR"
    } else if code == 120 {
        "4K"
    } else if code == 112 {
        "1080P+"
    } else if code == 116 {
        "1080P60"
    } else if code == 80 {
        "1080P"
    } else if code == 64 {
        "720P"
    } else if code == 32 {
        "480P"
    } else if code == 16 {
        "360P"
    } else {
        ""
    }
}

pub open spec fn is_digit(c: char) -> bool {
    '0' <= c && c <= '9'
}

/// Value of a string of decimal digits, most significant first.
pub open spec fn digits_value(s: Seq<char>) -> int
    decreases s.len(),
{
    if s.len() == 0 {
        0
    } else {
        digits_value(s.drop_last()) * 10 + (s.last() as int - '0' as int)
    }
}

/// A quality code read from decimal text: `None` for empty text, a
/// non-digit, or a value beyond `i64`.
pub open spec fn parse_code_spec(s: Seq<char>) -> Option<int> {
    digits_upto(s, i64::MAX as int)
}

/// The numeric code that a label stands for, `None` for an unknown label.
pub open spec fn code_of_label(label: Seq<char>) -> Option<int> {
    parse_code_spec(qn_spec(label))
}

proof fn lemma_digits_value_grows(s: Seq<char>, k: int)
    requires
        0 <= k <= s.len(),
        forall|i: int| 0 <= i < s.len() ==> is_digit(#[trigger] s[i]),
    ensures
        0 <= digits_value(s.subrange(0, k)) <= digits_value(s),
    decreases s.len() - k,
{
    if k < s.len() {
        lemma_digits_value_grows(s, k + 1);
        assert(s.subrange(0, k + 1).drop_last() == s.subrange(0, k));
        assert(is_digit(s[k]));
    } else {
        assert(s.subrange(0, k) == s);
        lemma_digits_value_nonneg(s);
    }
}

proof fn lemma_digits_value_nonneg(s: Seq<char>)
    requires
        forall|i: int| 0 <= i < s.len() ==> is_digit(#[trigger] s[i]),
    ensures
        digits_value(s) >= 0,
    decreases s.len(),
{
    if s.len() > 0 {
        assert(is_digit(s[s.len() - 1]));
        lemma_digits_value_nonneg(s.drop_last());
    }
}

/// Reads a quality code from decimal text.
pub fn parse_code(s: &str) -> (r: Option<i64>)
    ensures
        r matches Some(v) ==> parse_code_spec(s@) == Some(v as int),
        r is None ==> parse_code_spec(s@) is None,
{
    match parse_digits_upto(s, i64::MAX as u64) {
        Some(v) => Some(v as i64),
        None => None,
    }
}

/// The value of a nonempty string of decimal digits, when it is at most `limit`.
pub open spec fn digits_upto(s: Seq<char>, limit: int) -> Option<int> {
    if s.len() > 0 && (forall|i: int| 0 <= i < s.len() ==> is_digit(#[trigger] s[i]))
        && digits_value(s) <= limit {
        Some(digits_value(s))
    } else {
        None
    }
}

/// Reads a nonempty string of decimal digits whose value is at most `limit`.
pub fn parse_digits_upto(s: &str, limit: u64) -> (r: Option<u64>)
    ensures
        r matches Some(v) ==> digits_upto(s@, limit as int) == Some(v as int),
        r is None ==> digits_upto(s@, limit as int) is None,
{
    let n = s.unicode_len();
    if n == 0 {
        return None;
    }
    let mut v: u64 = 0;
    let mut i: usize = 0;
    while i < n
        invariant
            n == s@.len(),
            i <= n,
            forall|j: int| 0 <= j < i ==> is_digit(#[trigger] s@[j]),
            v as int == digits_value(s@.subrange(0, i as int)),
            v <= limit,
        decreases n - i,
    {
        let c = s.get_char(i);
        if !('0' <= c && c <= '9') {
            assert(!is_digit(s@[i as int]));
            return None;
        }
        let d = (c as u32 - '0' as u32) as u64;
        assert(s@.subrange(0, i + 1).drop_last() == s@.subrange(0, i as int));
        if d > limit || v > (limit - d) / 10 {
            proof {
                assert(digits_value(s@.subrange(0, i + 1)) > limit) by (nonlinear_arith)
                    requires
                        digits_value(s@.subrange(0, i + 1)) == v * 10 + d,
                        d > limit || v > (limit - d) / 10,
                        0 <= d <= 9,
                        v >= 0,
                ;
                if forall|j: int| 0 <= j < s@.len() ==> is_digit(#[trigger] s@[j]) {
                    lemma_digits_value_grows(s@, i + 1);
                }
            }
            return None;
        }
        assert(0 <= v * 10 + d <= limit) by (nonlinear_arith)
            requires
                v <= (limit - d) / 10,
                0 <= d <= 9,
                d <= limit,
                v >= 0,
        ;
        v = v * 10 + d;
        i = i + 1;
    }
    assert(s@.subrange(0, n as int) == s@);
    Some(v)
}

/// An integer read as `str::parse::<i64>` reads it: an optional `+` or `-`
/// followed by decimal digits, within the range of `i64`.
pub open spec fn int_value_spec(s: Seq<char>) -> Option<int> {
    if s.len() > 0 && s[0] == '-' {
        match digits_upto(s.drop_first(), i64::MAX + 1) {
            Some(m) => Some(-m),
            None => None,
        }
    } else if s.len() > 0 && s[0] == '+' {
        digits_upto(s.drop_first(), i64::MAX as int)
    } else {
        digits_upto(s, i64::MAX as int)
    }
}

/// Reads a signed decimal integer.
pub fn parse_int(s: &str) -> (r: Option<i64>)
    ensures
        r matches Some(v) ==> int_value_spec(s@) == Some(v as int),
        r is None ==> int_value_spec(s@) is None,
{
    let n = s.unicode_len();
    if n > 0 && s.get_char(0) == '-' {
        let rest = s.substring_char(1, n);
        assert(rest@ == s@.drop_first());
        match parse_digits_upto(rest, 9223372036854775808u64) {
            Some(m) => Some((-(m as i128)) as i64),
            None => None,
        }
    } else if n > 0 && s.get_char(0) == '+' {
        let rest = s.substring_char(1, n);
        assert(rest@ == s@.drop_first());
        match parse_digits_upto(rest, i64::MAX as u64) {
            Some(m) => Some(m as i64),
            None => None,
        }
    } else {
        match parse_digits_upto(s, i64::MAX as u64) {
            Some(m) => Some(m as i64),
            None => None,
        }
    }
}

/// The labels of the known quality tiers, highest first.
pub fn quality_labels() -> (r: Vec<String>)
    ensures
        r@.len() == 8,
        r@[0]@ == "HDR"@,
        r@[1]@ == "4K"@,
        r@[2]@ == "1080P+"@,
        r@[3]@ == "1080P60"@,
        r@[4]@ == "1080P"@,
        r@[5]@ == "720P"@,
        r@[6]@ == "480P"@,
        r@[7]@ == "360P"@,
{
    let mut r: Vec<String> = Vec::new();
    r.push(String::from_str("HDR"));
    r.push(String::from_str("4K"));
    r.push(String::from_str("1080P+"));
    r.push(String::from_str("1080P60"));
    r.push(String::from_str("1080P"));
    r.push(String::from_str("720P"));
    r.push(String::from_str("480P"));
    r.push(String::from_str("360P"));
    r
}

/// A label with no quality code asks for no code: the selector then has no
/// constraint rather than an error.
pub proof fn lemma_unknown_label_has_no_code(label: Seq<char>)
    requires
        qn_spec(label).len() == 0,
    ensures
        code_of_label(label) is None,
{
}

} // verus!
