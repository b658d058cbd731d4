//! Locations as the geocoding search returns them: the query built from a
//! free-text address, and the human rendering of one candidate.

use vstd::prelude::*;
use vstd::string::StrSliceExecFns;
use vstd::string::StringExecFns;

use crate::strutil::after_last;
use crate::strutil::replace_char;
use crate::strutil::replaced;
use crate::strutil::trim_str;
use crate::strutil::trimmed;

verus! {

/// One geocoding candidate, immutable once fetched.  Coordinates are carried
/// as the decimal strings the search answered with.
#[derive(Debug, Clone)]
pub struct Location {
    pub name: String,
    pub latitude: String,
    pub longitude: String,
    pub timezone: String,
    pub country_code: String,
    pub admin1: Option<String>,
    pub admin2: Option<String>,
    pub admin3: Option<String>,
    pub admin4: Option<String>,
}

/// The city token of a free-text address: what stands after the last comma,
/// trimmed.
pub open spec fn city_of_address(s: Seq<char>) -> Seq<char> {
    trimmed(after_last(s, ','))
}

/// Cuts the address down to its last comma-separated token.
pub fn split_location(raw_location: &str) -> (r: &str)
    ensures
        r@ == city_of_address(raw_location@),
{
    trim_str(crate::strutil::suffix_after_last(raw_location, ','))
}

/// Makes a free-text token URL-ready: every space becomes `%20`.
pub fn sanitise_spaces_html(input: &str) -> (r: String)
    ensures
        r@ == replaced(input@, ' ', "%20"@),
{
    replace_char(input, ' ', "%20")
}

/// The geocoding search request for a URL-ready city token.
pub fn build_geocoding_url(city: &str) -> (r: String)
    ensures
        r@ == "https://geocoding-api.open-meteo.com/v1/search?name="@ + city@,
{
    let mut out = String::from_str("https://geocoding-api.open-meteo.com/v1/search?name=");
    out.append(city);
    proof {
        assert(out@ =~= "https://geocoding-api.open-meteo.com/v1/search?name="@ + city@);
    }
    out
}

/// The English name of the country with the given upper-case ISO 3166-1
/// alpha-2 code, where the lookup table has the code.
pub uninterp spec fn country_lookup(alpha2: Seq<char>) -> Option<Seq<char>>;

/// Relies on `isocountry::CountryCode::for_alpha2` and `name`: the English
/// name for an exact upper-case ISO 3166-1 alpha-2 code, from the crate's
/// fixed table; unknown codes are turned down.
#[verifier::external_body]
fn country_display_name(alpha2: &str) -> (r: Option<String>)
    ensures
        r is Some <==> country_lookup(alpha2@) is Some,
        r matches Some(n) ==> country_lookup(alpha2@) matches Some(m) && n@ == m,
{
    match isocountry::CountryCode::for_alpha2(alpha2) {
        Ok(code) => Some(code.name().to_string()),
        Err(_) => None,
    }
}

/// An optional administrative field renders as itself and a separator, or as
/// nothing.
pub open spec fn opt_field(f: Option<String>) -> Seq<char> {
    match f {
        Some(x) => x@ + ", "@,
        None => Seq::empty(),
    }
}

/// The one-line human rendering of a candidate, given the label that stands
/// for its country: name, the administrative areas from narrow to wide, the
/// country, the coordinates, and the timezone.
pub open spec fn rendered_location(l: Location, country_label: Seq<char>) -> Seq<char> {
    l.name@ + ", "@ + opt_field(l.admin4) + opt_field(l.admin3) + opt_field(l.admin2) + opt_field(
        l.admin1,
    ) + country_label + " ("@ + l.latitude@ + ", "@ + l.longitude@ + ") with timezone '"@
        + l.timezone@ + "'"@
}

/// The label a candidate's country renders as: its English name where the
/// code is known, the bare code otherwise.
pub open spec fn country_label_of(l: Location) -> Seq<char> {
    match country_lookup(l.country_code@) {
        Some(n) => n,
        None => l.country_code@,
    }
}

fn push_opt_field(out: &mut String, f: &Option<String>)
    ensures
        final(out)@ == old(out)@ + opt_field(*f),
{
    match f {
        Some(x) => {
            out.append(x.as_str());
            out.append(", ");
            proof {
                assert(old(out)@ + x@ + ", "@ =~= old(out)@ + opt_field(*f));
            }
        },
        None => {
            proof {
                assert(old(out)@ + opt_field(*f) =~= old(out)@);
            }
        },
    }
}

/// Renders a candidate for the disambiguation list and the confirmation
/// message.
pub fn describe_location(l: &Location) -> (r: String)
    ensures
        r@ == rendered_location(*l, country_label_of(*l)),
{
    let mut out = String::new();
    out.append(l.name.as_str());
    out.append(", ");
    push_opt_field(&mut out, &l.admin4);
    push_opt_field(&mut out, &l.admin3);
    push_opt_field(&mut out, &l.admin2);
    push_opt_field(&mut out, &l.admin1);
    match country_display_name(l.country_code.as_str()) {
        Some(n) => out.append(n.as_str()),
        None => out.append(l.country_code.as_str()),
    }
    out.append(" (");
    out.append(l.latitude.as_str());
    out.append(", ");
    out.append(l.longitude.as_str());
    out.append(") with timezone '");
    out.append(l.timezone.as_str());
    out.append("'");
    proof {
        assert(out@ =~= rendered_location(*l, country_label_of(*l)));
    }
    out
}

} // verus!
