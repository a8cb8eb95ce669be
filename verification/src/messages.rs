//! The exact texts the agent prints: the startup banner and the per-probe
//! diagnostic lines.
use vstd::prelude::*;

verus! {

/// The startup banner for a given version text.
pub open spec fn spec_banner(version: Seq<char>) -> Seq<char> {
    "swatchdog v"@ + version + " started!"@
}

/// The error line for an interface whose first name match is not IPv4.
pub open spec fn spec_not_ipv4_message(name: Seq<char>) -> Seq<char> {
    "Error: Interface '"@ + name + "' is not an IPv4 address"@
}

/// The error line for an interface whose IPv4 address could not be had.
pub open spec fn spec_unresolved_message(name: Seq<char>) -> Seq<char> {
    "Error: Unable to retrieve IPv4 address for interface '"@ + name + "'"@
}

/// The pre-send notice emitted when verbose.
pub open spec fn spec_send_notice(target: Seq<char>) -> Seq<char> {
    "Send request to "@ + target + " ... "@
}

/// Build the startup banner.
pub fn banner(version: &String) -> (r: String)
    ensures
        r@ == spec_banner(version@),
{
    let mut r = String::from_str("swatchdog v");
    r.append(version.as_str());
    r.append(" started!");
    proof {
        assert(r@ =~= spec_banner(version@));
    }
    r
}

/// Build the not-an-IPv4-address error line for an interface name.
pub fn not_ipv4_message(name: &String) -> (r: String)
    ensures
        r@ == spec_not_ipv4_message(name@),
{
    let mut r = String::from_str("Error: Interface '");
    r.append(name.as_str());
    r.append("' is not an IPv4 address");
    proof {
        assert(r@ =~= spec_not_ipv4_message(name@));
    }
    r
}

/// Build the address-not-retrieved error line for an interface name.
pub fn unresolved_message(name: &String) -> (r: String)
    ensures
        r@ == spec_unresolved_message(name@),
{
    let mut r = String::from_str("Error: Unable to retrieve IPv4 address for interface '");
    r.append(name.as_str());
    r.append("'");
    proof {
        assert(r@ =~= spec_unresolved_message(name@));
    }
    r
}

/// Build the pre-send notice for a request target.
pub fn send_notice(target: &String) -> (r: String)
    ensures
        r@ == spec_send_notice(target@),
{
    let mut r = String::from_str("Send request to ");
    r.append(target.as_str());
    r.append(" ... ");
    proof {
        assert(r@ =~= spec_send_notice(target@));
    }
    r
}

} // verus!
