use vstd::prelude::*;
use crate::text::decimal;

verus! {

/// The shape of a phone number: three digits, three digits and up to five
/// digits, the groups optionally parted by non-word characters.
pub const PHONE_PATTERN: &'static str = "^([0-9][0-9][0-9])\\W*([0-9][0-9]{2})\\W*([0-9]{0,5})$";

/// What the regex engine answers for a pattern and a text: `None` where the
/// pattern does not compile, else whether the text has a match.
pub uninterp spec fn regex_verdict(pattern: Seq<char>, text: Seq<char>) -> Option<bool>;

/// Relies on `regex::Regex::new` (an error for a pattern that does not
/// compile) and `regex::Regex::is_match`; both depend on their arguments alone.
#[verifier::external_body]
fn regex_is_match(pattern: &str, text: &str) -> (r: Option<bool>)
    ensures
        r == regex_verdict(pattern@, text@),
{
    match regex::Regex::new(pattern) {
        Ok(re) => Some(re.is_match(text)),
        Err(_) => None,
    }
}

/// Whether `phone` has the shape of a phone number.
pub open spec fn is_phone_number(phone: Seq<char>) -> bool {
    regex_verdict(PHONE_PATTERN@, phone) == Some(true)
}

/// Whether `phone` has the shape of a phone number.
pub fn phone_number_ok(phone: &str) -> (r: bool)
    ensures
        r == is_phone_number(phone@),
{
    match regex_is_match(PHONE_PATTERN, phone) {
        Some(m) => m,
        None => false,
    }
}

/// The identifier of a phone identity: the country code in decimal, then the
/// number as it was submitted.
pub open spec fn identifier_of(country_code: u16, phone: Seq<char>) -> Seq<char> {
    decimal(country_code as int) + phone
}

/// The identifier under which the identity of a phone number is stored.
pub fn identifier_for(country_code: u16, phone: &str) -> (r: String)
    ensures
        r@ == identifier_of(country_code, phone@),
{
    let mut s = crate::text::decimal_string(country_code as i64);
    s.append(phone);
    s
}

} // verus!
