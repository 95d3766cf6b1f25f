use vstd::prelude::*;
use vstd::string::StringExecFns;
use crate::request::CallError;

verus! {

#[verifier::external_type_specification]
#[verifier::external_body]
pub struct ExQsError(serde_qs::Error);

/// The query-string text that serde_qs writes for a single `key=value` entry.
pub uninterp spec fn qs_pair(key: Seq<char>, value: Seq<char>) -> Seq<char>;

/// Relies on `serde_qs::to_string`, applied to a map of the one entry
/// `key => value`: one string key sits below the default nesting depth, the
/// text is written to a `Vec` and percent-encoding keeps it UTF-8, so the call
/// succeeds, and its text depends on the key and value alone.
#[verifier::external_body]
fn encode_pair(key: &str, value: &str) -> (r: Result<String, serde_qs::Error>)
    ensures
        r is Ok,
        r matches Ok(s) ==> s@ == qs_pair(key@, value@),
{
    serde_qs::to_string(&std::collections::BTreeMap::from([(key, value)]))
}

/// Relies on the `Display` impl of `serde_qs::Error`, for the message of an
/// encoding failure.
#[verifier::external_body]
fn encode_error_message(e: &serde_qs::Error) -> String {
    e.to_string()
}

/// Encodes one query-string entry. A string key and value always encode.
pub fn query_entry(key: &str, value: &str) -> (r: Result<String, CallError>)
    ensures
        r matches Ok(s) && s@ == qs_pair(key@, value@),
{
    match encode_pair(key, value) {
        Ok(s) => Ok(s),
        Err(e) => Err(CallError::Encode(encode_error_message(&e))),
    }
}

/// The entries joined with `&`, in order.
pub open spec fn joined(entries: Seq<Seq<char>>) -> Seq<char>
    decreases entries.len(),
{
    if entries.len() == 0 {
        Seq::empty()
    } else if entries.len() == 1 {
        entries[0]
    } else {
        joined(entries.drop_last()) + "&"@ + entries.last()
    }
}

pub open spec fn strings_view(v: Seq<String>) -> Seq<Seq<char>> {
    v.map_values(|s: String| s@)
}

/// Joins encoded entries into a query string.
pub fn join_query(entries: &Vec<String>) -> (r: String)
    ensures
        r@ == joined(strings_view(entries@)),
{
    let mut r = String::new();
    let mut i: usize = 0;
    while i < entries.len()
        invariant
            i <= entries.len(),
            r@ == joined(strings_view(entries@.take(i as int))),
        decreases entries.len() - i,
    {
        let ghost prev = strings_view(entries@.take(i as int));
        let ghost next = strings_view(entries@.take(i as int + 1));
        assert(next.drop_last() =~= prev);
        if i > 0 {
            r.append("&");
        }
        r.append(entries[i].as_str());
        i = i + 1;
    }
    assert(entries@.take(entries.len() as int) =~= entries@);
    r
}

pub open spec fn digit_char(d: nat) -> char {
    if d == 0 { '0' }
    else if d == 1 { '1' }
    else if d == 2 { '2' }
    else if d == 3 { '3' }
    else if d == 4 { '4' }
    else if d == 5 { '5' }
    else if d == 6 { '6' }
    else if d == 7 { '7' }
    else if d == 8 { '8' }
    else { '9' }
}

/// The decimal digits of `n`, most significant first, without leading zeros.
pub open spec fn decimal(n: nat) -> Seq<char>
    decreases n,
{
    if n < 10 {
        seq![digit_char(n)]
    } else {
        decimal(n / 10).push(digit_char(n % 10))
    }
}

fn digit_text(d: u64) -> (r: &'static str)
    requires
        d < 10,
    ensures
        r@ == seq![digit_char(d as nat)],
{
    proof {
        reveal_strlit("0");
        reveal_strlit("1");
        reveal_strlit("2");
        reveal_strlit("3");
        reveal_strlit("4");
        reveal_strlit("5");
        reveal_strlit("6");
        reveal_strlit("7");
        reveal_strlit("8");
        reveal_strlit("9");
    }
    if d == 0 { "0" }
    else if d == 1 { "1" }
    else if d == 2 { "2" }
    else if d == 3 { "3" }
    else if d == 4 { "4" }
    else if d == 5 { "5" }
    else if d == 6 { "6" }
    else if d == 7 { "7" }
    else if d == 8 { "8" }
    else { "9" }
}

/// The decimal text of `n`.
pub fn decimal_text(n: u64) -> (r: String)
    ensures
        r@ == decimal(n as nat),
    decreases n,
{
    if n < 10 {
        String::from_str(digit_text(n))
    } else {
        let mut s = decimal_text(n / 10);
        s.append(digit_text(n % 10));
        s
    }
}

} // verus!
