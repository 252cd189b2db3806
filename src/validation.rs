use vstd::prelude::*;
use vstd::string::StringSliceAdditionalSpecFns;
use vstd::utf8::encode_utf8;

use crate::decode::{parse_txn_type, txn_type_named};

verus! {

/// Pattern of a transaction identifier: `tx-` and a lower-case hexadecimal UUID.
pub const TX_ID_PATTERN: &'static str =
    "^tx-[0-9a-f]{8}-[0-9a-f]{4}-[0-9a-f]{4}-[0-9a-f]{4}-[0-9a-f]{12}$";

/// A rejected request field, with the message shown to the caller.
#[derive(Clone, Debug)]
pub struct ValidationError {
    pub message: String,
}

/// Validation context of a profile update.
#[derive(Clone, Copy, Debug, Default)]
pub struct ProfileUpdateContext;

/// Validation context of a transaction type field.
#[derive(Clone, Copy, Debug, Default)]
pub struct TxnTypeContext;

/// Validation context of a transaction lookup.
#[derive(Clone, Copy, Debug, Default)]
pub struct TxnViewContext;

/// Whether `c` has the Unicode `Alphabetic` property.
pub uninterp spec fn alphabetic(c: char) -> bool;

/// Whether the regular expression `pattern` matches somewhere in `text`.
pub uninterp spec fn regex_matches(pattern: Seq<char>, text: Seq<char>) -> bool;

/// Relies on `char::is_alphabetic`: the Unicode `Alphabetic` property of `c`.
#[verifier::external_body]
fn is_alphabetic(c: char) -> (r: bool)
    ensures
        r == alphabetic(c),
{
    c.is_alphabetic()
}

/// Relies on `regex::Regex::new` and `regex::Regex::is_match`: compiles `pattern`
/// (`None` when it does not compile) and reports whether it matches in `text`.
#[verifier::external_body]
fn regex_is_match(pattern: &str, text: &str) -> (r: Option<bool>)
    ensures
        r matches Some(m) ==> m == regex_matches(pattern@, text@),
{
    match regex::Regex::new(pattern) {
        Ok(re) => Some(re.is_match(text)),
        Err(_) => None,
    }
}

fn error(message: &str) -> (r: ValidationError)
    ensures
        r.message@ == message@,
{
    ValidationError { message: message.to_owned() }
}

/// Length of the UTF-8 encoding of `s`, as `str::len` reports it.
pub open spec fn byte_len(s: Seq<char>) -> usize {
    encode_utf8(s).len() as usize
}

/// A character that a personal name may hold: a letter, a hyphen, an apostrophe
/// or a space.
pub open spec fn name_char(c: char) -> bool {
    alphabetic(c) || c == '-' || c == '\'' || c == ' '
}

/// Accepts an absent name, or one of 2 to 50 bytes made of letters, hyphens,
/// apostrophes and spaces.
pub fn validate_optional_name(value: &Option<String>, _context: &ProfileUpdateContext) -> (r:
    Result<(), ValidationError>)
    ensures
        value is None ==> r is Ok,
        value matches Some(n) ==> {
            &&& !(2 <= byte_len(n@) <= 50) ==> (r matches Err(e) && e.message@
                == "name must be 2–50 characters long"@)
            &&& 2 <= byte_len(n@) <= 50 && !(forall|i: int|
                0 <= i < n@.len() ==> name_char(#[trigger] n@[i])) ==> (r matches Err(e)
                && e.message@ == "name contains invalid characters"@)
            &&& r is Ok <==> 2 <= byte_len(n@) <= 50 && forall|i: int|
                0 <= i < n@.len() ==> name_char(#[trigger] n@[i])
        },
{
    let name = match value {
        None => return Ok(()),
        Some(name) => name,
    };
    let s = name.as_str();
    let len = s.len();
    assert(s.spec_bytes() == encode_utf8(name@));
    if len < 2 || len > 50 {
        return Err(error("name must be 2–50 characters long"));
    }
    let n = s.unicode_len();
    let mut i: usize = 0;
    while i < n
        invariant
            n == s@.len(),
            s@ == name@,
            *value == Some(*name),
            2 <= byte_len(name@) <= 50,
            i <= n,
            forall|j: int| 0 <= j < i ==> name_char(#[trigger] s@[j]),
        decreases n - i,
    {
        let c = s.get_char(i);
        if !(is_alphabetic(c) || c == '-' || c == '\'' || c == ' ') {
            return Err(error("name contains invalid characters"));
        }
        i = i + 1;
    }
    Ok(())
}

/// Accepts `purchase` and `credit`.
pub fn is_valid_txn_type(value: &str, _context: &TxnTypeContext) -> (r: Result<
    (),
    ValidationError,
>)
    ensures
        r is Ok <==> txn_type_named(value@) is Some,
        r matches Err(e) ==> e.message@ == "txn_type must be either 'purchase' or 'credit'"@,
{
    match parse_txn_type(value) {
        Some(_) => Ok(()),
        None => Err(error("txn_type must be either 'purchase' or 'credit'")),
    }
}

/// The verdict on a transaction identifier, from the outcome of matching it
/// against `TX_ID_PATTERN`: accepted only on a match.
pub fn tx_id_verdict(matched: Option<bool>) -> (r: Result<(), ValidationError>)
    ensures
        r is Ok <==> matched == Some(true),
        r matches Err(e) ==> e.message@ == "Invalid transaction ID format"@,
{
    match matched {
        Some(true) => Ok(()),
        _ => Err(error("Invalid transaction ID format")),
    }
}

/// Accepts a transaction identifier of the form `tx-` and a lower-case
/// hexadecimal UUID, as `TX_ID_PATTERN` states it.
pub fn is_valid_tx_id(value: &str, _context: &TxnViewContext) -> (r: Result<(), ValidationError>)
    ensures
        r is Ok ==> regex_matches(TX_ID_PATTERN@, value@),
        r matches Err(e) ==> e.message@ == "Invalid transaction ID format"@,
{
    tx_id_verdict(regex_is_match(TX_ID_PATTERN, value))
}

} // verus!
