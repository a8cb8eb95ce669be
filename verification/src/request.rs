//! Request building: the `status=...&msg=...&ping=` query string and its
//! attachment to the configured URL.
use vstd::prelude::*;
use vstd::utf8::encode_utf8;
use crate::state::Status;

verus! {

/// The text a status is written as in the query string.
pub open spec fn status_label(s: Status) -> Seq<char> {
    match s {
        Status::Up => "up"@,
        Status::Pending => "pending"@,
    }
}

/// The query string a probe sends for a given status and resolved address.
/// The trailing `ping` parameter is always present and always empty.
pub open spec fn spec_query(status: Status, addr: Seq<char>) -> Seq<char> {
    "status="@ + status_label(status) + "&msg="@ + addr + "&ping="@
}

/// The text of a status label.
pub fn status_text(s: Status) -> (r: &'static str)
    ensures
        r@ == status_label(s),
{
    match s {
        Status::Up => "up",
        Status::Pending => "pending",
    }
}

/// Build the probe's query string for a status and a resolved address.
pub fn build_query(status: Status, addr: &String) -> (q: String)
    ensures
        q@ == spec_query(status, addr@),
{
    let mut q = String::from_str("status=");
    q.append(status_text(status));
    q.append("&msg=");
    q.append(addr.as_str());
    q.append("&ping=");
    proof {
        assert(q@ =~= spec_query(status, addr@));
    }
    q
}

/// Whether the URL text and the query are each small enough, in UTF-8
/// bytes, that parsing the URL and attaching the query stays far inside
/// the url crate's four-gigabyte serialisation limit. Any URL and address
/// a process can actually be handed is orders of magnitude below this.
pub open spec fn fits_url_limit(base: Seq<char>, query: Seq<char>) -> bool {
    encode_utf8(base).len() < 0x2000000 && encode_utf8(query).len() < 0x2000000
}

/// Whether `url::Url::parse` accepts this text as an absolute URL.
pub uninterp spec fn url_parses(url: Seq<char>) -> bool;

/// The serialisation of the URL obtained by parsing `url` and replacing its
/// query string with `query`; meaningful only where `url_parses(url)` holds.
pub uninterp spec fn with_query(url: Seq<char>, query: Seq<char>) -> Seq<char>;

/// Relies on url::Url::parse, url::Url::set_query and the crate's
/// `From<Url> for String`: parsing and re-serialising a URL with a replaced
/// query depends on the two input texts alone, and `set_query` drops any
/// query the parsed URL already had. Both functions record byte positions
/// in the serialisation as `u32`, and `set_query` unwraps that conversion;
/// serialising expands the input by a small factor (three bytes per byte
/// under percent-encoding), so the byte bounds in `requires` keep the
/// whole serialisation far below `u32::MAX` and the call cannot panic.
#[verifier::external_body]
fn attach_query(base: &str, query: &str) -> (r: Option<String>)
    requires
        fits_url_limit(base@, query@),
    ensures
        r is Some == url_parses(base@),
        r matches Some(s) ==> s@ == with_query(base@, query@),
{
    match url::Url::parse(base) {
        Ok(mut u) => {
            u.set_query(Some(query));
            Some(String::from(u))
        },
        Err(_) => None,
    }
}

/// The request target for one probe: the configured URL unchanged when no
/// address was resolved, and otherwise the configured URL with the
/// status/address query attached in place of any existing query. A
/// configured URL that does not parse is left unchanged, as is one whose
/// size (or whose query's size) is beyond `fits_url_limit`; the process
/// validates the URL at startup and addresses are dotted-decimal text, so
/// neither branch is ever taken in a running agent.
pub fn build_target(base: &String, resolved: &Option<(Status, String)>) -> (t: String)
    ensures
        resolved is None ==> t@ == base@,
        resolved matches Some((status, addr)) ==> {
            &&& fits_url_limit(base@, spec_query(*status, addr@)) && url_parses(base@) ==> t@
                == with_query(base@, spec_query(*status, addr@))
            &&& !(fits_url_limit(base@, spec_query(*status, addr@)) && url_parses(base@)) ==> t@
                == base@
        },
{
    match resolved {
        None => base.clone(),
        Some((status, addr)) => {
            let q = build_query(*status, addr);
            if base.as_str().as_bytes().len() < 0x2000000 && q.as_str().as_bytes().len()
                < 0x2000000 {
                match attach_query(base.as_str(), q.as_str()) {
                    Some(t) => t,
                    None => base.clone(),
                }
            } else {
                base.clone()
            }
        },
    }
}

} // verus!
