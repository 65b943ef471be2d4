//! Decoding of the inbound request body.
//!
//! The body must be a JSON object mapping string keys to string values.  Two
//! keys matter: `value`, the search term (default the empty string), and
//! `timeout`, the extraction budget in whole seconds written as a decimal
//! string (default ten seconds).

use vstd::prelude::*;
use vstd::string::StrSliceExecFns;

verus! {

/// The decoded inbound parameters of one request.
#[derive(Debug)]
pub struct SearchRequest {
    /// The search term, still unencoded.
    pub value: String,
    /// The extraction budget in whole seconds.
    pub timeout: u64,
}

/// Why an inbound body was rejected.
#[derive(Debug, PartialEq, Eq)]
pub enum RequestError {
    /// The body is not a JSON object mapping strings to strings.
    NotAStringMap,
    /// The `timeout` member does not hold a decimal `u64`.
    BadTimeout,
}

/// The string-to-string map that `serde_json` parses the given text into, or
/// `None` where the text is not a JSON object of string members.  Parsing
/// depends on the text alone, so this is a function of it.
pub uninterp spec fn json_string_map_of(s: Seq<char>) -> Option<Map<Seq<char>, Seq<char>>>;

/// Relies on `serde_json::from_str::<HashMap<String, String>>`: whether the
/// text parses, and which pairs the map then holds, depend on the text
/// alone.  The pairs come out in no particular order, and nothing here
/// relies on one.
#[verifier::external_body]
fn parse_string_map(s: &str) -> (r: Option<Vec<(String, String)>>)
    ensures
        match json_string_map_of(s@) {
            None => r is None,
            Some(m) => r matches Some(ps) && (forall|i: int|
                0 <= i < ps@.len() ==> #[trigger] m.contains_pair(ps@[i].0@, ps@[i].1@)) && (
            forall|k: Seq<char>|
                #[trigger] m.contains_key(k) ==> exists|i: int|
                    0 <= i < ps@.len() && ps@[i].0@ == k) && (forall|i: int, j: int|
                0 <= i < ps@.len() && 0 <= j < ps@.len() && i != j ==> ps@[i].0@ != ps@[j].0@),
        },
{
    match serde_json::from_str::<std::collections::HashMap<String, String>>(s) {
        Ok(m) => Some(m.into_iter().collect()),
        Err(_) => None,
    }
}

/// Every character is a decimal digit.
pub open spec fn is_digit_seq(s: Seq<char>) -> bool {
    forall|i: int| 0 <= i < s.len() ==> '0' <= #[trigger] s[i] <= '9'
}

/// The number that a sequence of decimal digits denotes.
pub open spec fn digits_value(s: Seq<char>) -> int
    decreases s.len(),
{
    if s.len() == 0 {
        0
    } else {
        digits_value(s.drop_last()) * 10 + (s.last() as int - '0' as int)
    }
}

/// The `u64` that the text denotes: it must be non-empty, all decimal
/// digits, and fit in a `u64`.
pub open spec fn parsed_u64(s: Seq<char>) -> Option<u64> {
    if s.len() > 0 && is_digit_seq(s) && digits_value(s) <= u64::MAX {
        Some(digits_value(s) as u64)
    } else {
        None
    }
}

proof fn lemma_digits_value_nonneg(s: Seq<char>)
    requires
        is_digit_seq(s),
    ensures
        digits_value(s) >= 0,
    decreases s.len(),
{
    if s.len() > 0 {
        assert(is_digit_seq(s.drop_last())) by {
            assert(forall|i: int|
                0 <= i < s.len() - 1 ==> s.drop_last()[i] == #[trigger] s[i]);
        }
        lemma_digits_value_nonneg(s.drop_last());
    }
}

proof fn lemma_digits_value_prefix_le(s: Seq<char>, k: int)
    requires
        is_digit_seq(s),
        0 <= k <= s.len(),
    ensures
        digits_value(s.take(k)) <= digits_value(s),
    decreases s.len() - k,
{
    if k == s.len() {
        assert(s.take(k) =~= s);
    } else {
        assert(s.take(k + 1).drop_last() =~= s.take(k));
        assert(s.take(k + 1).last() == s[k]);
        assert(is_digit_seq(s.take(k))) by {
            assert(forall|i: int| 0 <= i < k ==> s.take(k)[i] == #[trigger] s[i]);
        }
        lemma_digits_value_nonneg(s.take(k));
        assert(digits_value(s.take(k + 1)) >= digits_value(s.take(k)));
        lemma_digits_value_prefix_le(s, k + 1);
    }
}

/// Parses a decimal `u64` from the text: `Some` exactly where the text is
/// non-empty, all digits, and within range.
pub fn parse_u64(s: &str) -> (r: Option<u64>)
    ensures
        r == parsed_u64(s@),
{
    let n = s.unicode_len();
    if n == 0 {
        return None;
    }
    let mut value: u64 = 0;
    let mut i: usize = 0;
    while i < n
        invariant
            n == s@.len(),
            0 < n,
            i <= n,
            forall|j: int| 0 <= j < i ==> '0' <= #[trigger] s@[j] <= '9',
            value == digits_value(s@.take(i as int)),
        decreases n - i,
    {
        let c = s.get_char(i);
        if c < '0' || c > '9' {
            assert(!is_digit_seq(s@));
            return None;
        }
        let d: u64 = (c as u32 - 48) as u64;
        let grown = match value.checked_mul(10) {
            Some(v) => v.checked_add(d),
            None => None,
        };
        proof {
            assert(s@.take(i + 1).drop_last() =~= s@.take(i as int));
            assert(s@.take(i + 1).last() == s@[i as int]);
        }
        value = match grown {
            Some(v) => v,
            None => {
                proof {
                    assert(digits_value(s@.take(i + 1)) > u64::MAX);
                    if is_digit_seq(s@) {
                        lemma_digits_value_prefix_le(s@, i + 1);
                    }
                }
                return None;
            },
        };
        i += 1;
    }
    proof {
        assert(s@.take(n as int) =~= s@);
    }
    Some(value)
}

/// Looks a key up among the parsed pairs: the value beside the first key
/// with the given characters, or `None` where no key has them.
fn lookup<'a>(pairs: &'a Vec<(String, String)>, key: &str) -> (r: Option<&'a String>)
    ensures
        match r {
            Some(v) => exists|i: int|
                0 <= i < pairs@.len() && #[trigger] pairs@[i].0@ == key@ && pairs@[i].1@ == v@,
            None => forall|i: int| 0 <= i < pairs@.len() ==> #[trigger] pairs@[i].0@ != key@,
        },
{
    let n = pairs.len();
    let mut i: usize = 0;
    while i < n
        invariant
            n == pairs@.len(),
            i <= n,
            forall|j: int| 0 <= j < i ==> #[trigger] pairs@[j].0@ != key@,
        decreases n - i,
    {
        let p = &pairs[i];
        if str_eq(p.0.as_str(), key) {
            return Some(&p.1);
        }
        i += 1;
    }
    None
}

/// Relies on `<str as PartialEq>::eq`: two string slices are equal exactly
/// when their characters are.
#[verifier::external_body]
fn str_eq(a: &str, b: &str) -> (r: bool)
    ensures
        r <==> a@ == b@,
{
    a == b
}

/// The search term that a decoded body yields: the `value` member, or the
/// empty string where there is none.
pub open spec fn decoded_value(m: Map<Seq<char>, Seq<char>>) -> Seq<char> {
    if m.contains_key("value"@) {
        m["value"@]
    } else {
        Seq::<char>::empty()
    }
}

/// Whether the body's `timeout` member, if any, holds a decimal `u64`.
pub open spec fn timeout_field_ok(m: Map<Seq<char>, Seq<char>>) -> bool {
    m.contains_key("timeout"@) ==> parsed_u64(m["timeout"@]) is Some
}

/// The extraction budget that a decoded body yields: the parsed `timeout`
/// member, or ten seconds where there is none.
pub open spec fn decoded_timeout(m: Map<Seq<char>, Seq<char>>) -> u64 {
    if m.contains_key("timeout"@) {
        parsed_u64(m["timeout"@]).unwrap()
    } else {
        10
    }
}

/// Decodes an inbound request body.  The body must be a JSON object mapping
/// strings to strings; `value` defaults to the empty string and `timeout`
/// to ten seconds.  A body that is no such object, or whose `timeout` is not
/// a decimal `u64`, is rejected with the matching error.  In particular a
/// valid body with no `value` member always yields the empty search term.
pub fn decode_request(body: &str) -> (r: Result<SearchRequest, RequestError>)
    ensures
        match json_string_map_of(body@) {
            None => r matches Err(e) && e == RequestError::NotAStringMap,
            Some(m) => {
                if timeout_field_ok(m) {
                    r matches Ok(req) && req.value@ == decoded_value(m) && req.timeout
                        == decoded_timeout(m)
                } else {
                    r matches Err(e) && e == RequestError::BadTimeout
                }
            },
        },
{
    let pairs = match parse_string_map(body) {
        Some(p) => p,
        None => {
            return Err(RequestError::NotAStringMap);
        },
    };
    let ghost m = json_string_map_of(body@).unwrap();
    let value: String = match lookup(&pairs, "value") {
        Some(v) => {
            proof {
                let i = choose|i: int|
                    0 <= i < pairs@.len() && #[trigger] pairs@[i].0@ == "value"@ && pairs@[i].1@
                        == v@;
                assert(m.contains_pair(pairs@[i].0@, pairs@[i].1@));
            }
            v.clone()
        },
        None => {
            proof {
                if m.contains_key("value"@) {
                    let i = choose|i: int|
                        0 <= i < pairs@.len() && #[trigger] pairs@[i].0@ == "value"@;
                    assert(false);
                }
            }
            String::new()
        },
    };
    let timeout: u64 = match lookup(&pairs, "timeout") {
        Some(t) => {
            proof {
                let i = choose|i: int|
                    0 <= i < pairs@.len() && #[trigger] pairs@[i].0@ == "timeout"@ && pairs@[i].1@
                        == t@;
                assert(m.contains_pair(pairs@[i].0@, pairs@[i].1@));
            }
            match parse_u64(t.as_str()) {
                Some(n) => n,
                None => {
                    return Err(RequestError::BadTimeout);
                },
            }
        },
        None => {
            proof {
                if m.contains_key("timeout"@) {
                    let i = choose|i: int|
                        0 <= i < pairs@.len() && #[trigger] pairs@[i].0@ == "timeout"@;
                    assert(false);
                }
            }
            10
        },
    };
    Ok(SearchRequest { value, timeout })
}

} // verus!
