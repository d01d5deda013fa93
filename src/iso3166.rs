//! Country codes that the geocoding service accepts: ISO 3166 alpha-2 and
//! alpha-3 codes, and a few codes of its own, in any letter case.
use vstd::prelude::*;

verus! {

#[verifier::external_type_specification]
#[verifier::external_body]
pub struct ExCountryCode(rust_iso3166::CountryCode);

/// Whether `s` is an ISO 3166 alpha-2 code, as rust_iso3166 lists them.
pub uninterp spec fn known_alpha2(s: Seq<char>) -> bool;

/// Whether `s` is an ISO 3166 alpha-3 code, as rust_iso3166 lists them.
pub uninterp spec fn known_alpha3(s: Seq<char>) -> bool;

/// The upper-case form of `s`, as `str::to_uppercase` gives it.
pub uninterp spec fn upper_of(s: Seq<char>) -> Seq<char>;

/// Relies on rust_iso3166::from_alpha2: a country is found exactly for a
/// listed alpha-2 code.
pub assume_specification[ rust_iso3166::from_alpha2 ](alpha2: &str) -> (r: Option<rust_iso3166::CountryCode>)
    ensures
        r is Some == known_alpha2(alpha2@),
;

/// Relies on rust_iso3166::from_alpha3: a country is found exactly for a
/// listed alpha-3 code.
pub assume_specification[ rust_iso3166::from_alpha3 ](alpha3: &str) -> (r: Option<rust_iso3166::CountryCode>)
    ensures
        r is Some == known_alpha3(alpha3@),
;

/// Relies on str::to_uppercase: the result depends on the characters alone.
#[verifier::external_body]
fn to_upper(s: &str) -> (r: String)
    ensures
        r@ == upper_of(s@),
{
    s.to_uppercase()
}

/// The codes that the service accepts beside those of ISO 3166.
pub open spec fn service_code(u: Seq<char>) -> bool {
    u == "EUR"@ || u == "NCY"@ || u == "PLI"@ || u == "RKS"@ || u == "SPI"@
}

/// An upper-case code is accepted: it is one of the service's own codes or
/// an ISO 3166 alpha-2 or alpha-3 code.
pub open spec fn accepted(u: Seq<char>) -> bool {
    service_code(u) || known_alpha2(u) || known_alpha3(u)
}

/// Whether an upper-case code is accepted.
pub fn is_accepted_upper(u: &str) -> (r: bool)
    ensures
        r == accepted(u@),
{
    let s = String::from_str(u);
    if s == String::from_str("EUR") || s == String::from_str("NCY") || s == String::from_str("PLI")
        || s == String::from_str("RKS") || s == String::from_str("SPI") {
        return true;
    }
    if rust_iso3166::from_alpha2(u).is_some() {
        return true;
    }
    rust_iso3166::from_alpha3(u).is_some()
}

/// Whether a code, in any letter case, is accepted.
pub fn is_iso3166_scalar(code: &str) -> (r: bool)
    ensures
        r == accepted(upper_of(code@)),
{
    let u = to_upper(code);
    is_accepted_upper(u.as_str())
}

/// Checks each code, in order; a missing code gives no answer.
pub fn is_iso3166(codes: &Vec<Option<String>>) -> (r: Vec<Option<bool>>)
    ensures
        r@.len() == codes@.len(),
        forall|i: int| 0 <= i < codes@.len() ==> #[trigger] r@[i] == match codes@[i] {
            Some(c) => Some(accepted(upper_of(c@))),
            None => None,
        },
{
    let mut out: Vec<Option<bool>> = Vec::new();
    let mut i: usize = 0;
    while i < codes.len()
        invariant
            i <= codes@.len(),
            out@.len() == i,
            forall|k: int| 0 <= k < i ==> #[trigger] out@[k] == match codes@[k] {
                Some(c) => Some(accepted(upper_of(c@))),
                None => None,
            },
        decreases codes@.len() - i,
    {
        let a = match &codes[i] {
            Some(c) => Some(is_iso3166_scalar(c.as_str())),
            None => None,
        };
        out.push(a);
        i = i + 1;
    }
    out
}

} // verus!
