//! Extraction of the quoted rate out of the JSON body that the rate API
//! answers with: the body's object at the pair's key holds a `bid` field,
//! whose JSON text, stripped of its surrounding quote characters, is the
//! rate to publish.

use vstd::prelude::*;
use vstd::string::StrSliceExecFns;

verus! {

/// The characters of `s` after every leading `'"'` has been removed.
pub open spec fn trim_leading_quotes(s: Seq<char>) -> Seq<char>
    decreases s.len(),
{
    if s.len() > 0 && s[0] == '"' {
        trim_leading_quotes(s.subrange(1, s.len() as int))
    } else {
        s
    }
}

/// The characters of `s` after every trailing `'"'` has been removed.
pub open spec fn trim_trailing_quotes(s: Seq<char>) -> Seq<char>
    decreases s.len(),
{
    if s.len() > 0 && s[s.len() - 1] == '"' {
        trim_trailing_quotes(s.subrange(0, s.len() - 1))
    } else {
        s
    }
}

/// `s` with all surrounding quote characters removed: what remains of a
/// JSON-rendered string is its content.
pub open spec fn stripped_quotes(s: Seq<char>) -> Seq<char> {
    trim_trailing_quotes(trim_leading_quotes(s))
}

proof fn lemma_trim_leading_is_suffix(s: Seq<char>, i: int)
    requires
        0 <= i <= s.len(),
        forall|k: int| 0 <= k < i ==> s[k] == '"',
        i == s.len() || s[i] != '"',
    ensures
        trim_leading_quotes(s) == s.subrange(i, s.len() as int),
    decreases i,
{
    if i == 0 {
        assert(s.subrange(0, s.len() as int) =~= s);
    } else {
        let t = s.subrange(1, s.len() as int);
        lemma_trim_leading_is_suffix(t, i - 1);
        assert(t.subrange(i - 1, t.len() as int) =~= s.subrange(i, s.len() as int));
    }
}

proof fn lemma_trim_trailing_is_prefix(s: Seq<char>, j: int)
    requires
        0 <= j <= s.len(),
        forall|k: int| j <= k < s.len() ==> s[k] == '"',
        j == 0 || s[j - 1] != '"',
    ensures
        trim_trailing_quotes(s) == s.subrange(0, j),
    decreases s.len() - j,
{
    if j == s.len() {
        assert(s.subrange(0, j) =~= s);
    } else {
        let t = s.subrange(0, s.len() - 1);
        lemma_trim_trailing_is_prefix(t, j);
        assert(t.subrange(0, j) =~= s.subrange(0, j));
    }
}

/// Removes every leading and every trailing quote character of `s`, as the
/// rate text is unwrapped from its JSON rendering.
pub fn strip_quotes(s: &str) -> (r: String)
    ensures
        r@ == stripped_quotes(s@),
{
    let len = s.unicode_len();
    let mut lo: usize = 0;
    while lo < len && s.get_char(lo) == '"'
        invariant
            len == s@.len(),
            lo <= len,
            forall|k: int| 0 <= k < lo ==> s@[k] == '"',
        decreases len - lo,
    {
        lo = lo + 1;
    }
    let mut hi: usize = len;
    while hi > lo && s.get_char(hi - 1) == '"'
        invariant
            len == s@.len(),
            lo <= hi <= len,
            forall|k: int| hi <= k < len ==> s@[k] == '"',
        decreases hi,
    {
        hi = hi - 1;
    }
    proof {
        lemma_trim_leading_is_suffix(s@, lo as int);
        let t = s@.subrange(lo as int, s@.len() as int);
        lemma_trim_trailing_is_prefix(t, hi - lo);
        assert(t.subrange(0, hi - lo) =~= s@.subrange(lo as int, hi as int));
    }
    s.substring_char(lo, hi).to_owned()
}

/// The `bid` field under the pair's key in the JSON body, rendered as JSON
/// text; nothing when the body does not parse as JSON, when its top-level
/// value has no object entry at the pair's key, or when that entry has no
/// `bid` field. A function of the two strings alone.
pub uninterp spec fn bid_text_of(body: Seq<char>, pair: Seq<char>) -> Option<Seq<char>>;

/// Relies on serde_json: `from_str` parses `body` into a `Value` exactly
/// when it is valid JSON, `Value::get` looks up the `pair` and `"bid"`
/// object entries (`None` on a non-object or a missing key), and `Value`'s
/// `Display` renders the entry as compact JSON text. Each is a function of
/// `body` and `pair` alone.
#[verifier::external_body]
fn bid_text(body: &str, pair: &str) -> (r: Option<String>)
    ensures
        r is Some <==> bid_text_of(body@, pair@) is Some,
        r matches Some(t) ==> t@ == bid_text_of(body@, pair@)->Some_0,
{
    let parsed: Result<serde_json::Value, serde_json::Error> = serde_json::from_str(body);
    match parsed {
        Ok(doc) => match doc.get(pair) {
            Some(entry) => match entry.get("bid") {
                Some(bid) => Some(bid.to_string()),
                None => None,
            },
            None => None,
        },
        Err(_) => None,
    }
}

/// The rate that the body yields for the pair: its `bid` text with the
/// surrounding quotes stripped, or nothing where no `bid` text exists.
pub open spec fn bid_of(body: Seq<char>, pair: Seq<char>) -> Option<Seq<char>> {
    match bid_text_of(body, pair) {
        Some(t) => Some(stripped_quotes(t)),
        None => None,
    }
}

/// Extracts the rate to publish from one response body: the `bid` field's
/// JSON text with surrounding quotes stripped, or `None` exactly when the
/// body yields no `bid` text for the pair.
pub fn extract_bid(body: &str, pair: &str) -> (r: Option<String>)
    ensures
        r is Some <==> bid_of(body@, pair@) is Some,
        r matches Some(rate) ==> rate@ == bid_of(body@, pair@)->Some_0,
{
    match bid_text(body, pair) {
        Some(t) => Some(strip_quotes(t.as_str())),
        None => None,
    }
}

} // verus!
