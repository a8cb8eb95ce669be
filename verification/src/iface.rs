//! Interface resolution: scanning the OS interface list for the first entry
//! with a given name and extracting its IPv4 address.
use vstd::prelude::*;

verus! {

/// The address of one OS interface entry, as the probe logic reads it: an
/// IPv4 address in dotted-decimal text, or an address of any other family.
#[derive(Clone, Debug)]
pub enum IfaceIp {
    V4(String),
    Other,
}

/// One entry of the OS interface list: its name and its address.
#[derive(Clone, Debug)]
pub struct IfaceEntry {
    pub name: String,
    pub ip: IfaceIp,
}

/// The outcome of looking an interface name up in the interface list.
#[derive(Clone, Debug)]
pub enum IfaceLookup {
    /// The first entry with the given name carries this IPv4 address.
    Found(String),
    /// The first entry with the given name is not an IPv4 address.
    NotIpv4,
    /// No entry has the given name, or the list could not be read at all.
    NotFound,
}

/// The first entry of `entries` whose name is `name`, if any.
pub open spec fn spec_find(entries: Seq<IfaceEntry>, name: Seq<char>) -> Option<IfaceEntry>
    decreases entries.len(),
{
    if entries.len() == 0 {
        None
    } else if entries[0].name@ == name {
        Some(entries[0])
    } else {
        spec_find(entries.skip(1), name)
    }
}

/// The lookup outcome that a given interface list determines for a given
/// name: the address of the first name match if it is IPv4, `NotIpv4` if
/// that match is of another family, `NotFound` if nothing matches.
pub open spec fn lookup_matches(entries: Seq<IfaceEntry>, name: Seq<char>, r: IfaceLookup) -> bool {
    match spec_find(entries, name) {
        None => r is NotFound,
        Some(e) => match e.ip {
            IfaceIp::V4(a) => r matches IfaceLookup::Found(got) && got@ == a@,
            IfaceIp::Other => r is NotIpv4,
        },
    }
}

proof fn lemma_find_skip(entries: Seq<IfaceEntry>, name: Seq<char>, i: int)
    requires
        0 <= i <= entries.len(),
        forall|j: int| 0 <= j < i ==> entries[j].name@ != name,
    ensures
        spec_find(entries, name) == spec_find(entries.skip(i), name),
    decreases i,
{
    if i > 0 {
        assert(entries[0].name@ != name);
        assert(forall|j: int| 0 <= j < i - 1 ==> entries.skip(1)[j].name@ != name);
        lemma_find_skip(entries.skip(1), name, i - 1);
        assert(entries.skip(1).skip(i - 1) =~= entries.skip(i));
    } else {
        assert(entries.skip(0) =~= entries);
    }
}

/// Scan the interface list for the first entry named `name`, exactly as the
/// probe does: a match with an IPv4 address yields that address, a match of
/// another family is an error, and no match yields nothing.
pub fn resolve_interface(entries: &Vec<IfaceEntry>, name: &String) -> (r: IfaceLookup)
    ensures
        lookup_matches(entries@, name@, r),
{
    let mut i: usize = 0;
    while i < entries.len()
        invariant
            0 <= i <= entries@.len(),
            forall|j: int| 0 <= j < i ==> entries@[j].name@ != name@,
        decreases entries@.len() - i,
    {
        if entries[i].name == *name {
            proof {
                lemma_find_skip(entries@, name@, i as int);
                assert(entries@.skip(i as int)[0] == entries@[i as int]);
            }
            match &entries[i].ip {
                IfaceIp::V4(a) => {
                    return IfaceLookup::Found(a.clone());
                },
                IfaceIp::Other => {
                    return IfaceLookup::NotIpv4;
                },
            }
        }
        i += 1;
    }
    proof {
        lemma_find_skip(entries@, name@, entries@.len() as int);
    }
    IfaceLookup::NotFound
}

/// Relies on get_if_addrs::get_if_addrs: one entry per address bound to an
/// OS interface, in the order the OS reports them. The result depends on
/// the machine's state at the moment of the call, so nothing further is
/// promised of it. An IPv4 address is carried over in dotted-decimal text;
/// any other family becomes `IfaceIp::Other`.
#[verifier::external_body]
fn fetch_interfaces() -> (r: Option<Vec<IfaceEntry>>) {
    match get_if_addrs::get_if_addrs() {
        Ok(list) => Some(
            list.into_iter().map(
                |entry| IfaceEntry {
                    name: entry.name,
                    ip: match entry.addr {
                        get_if_addrs::IfAddr::V4(v4) => IfaceIp::V4(v4.ip.to_string()),
                        get_if_addrs::IfAddr::V6(_) => IfaceIp::Other,
                    },
                },
            ).collect(),
        ),
        Err(_) => None,
    }
}

/// Resolve the IPv4 address of the named interface against the OS interface
/// list as it stands right now. Which list comes back depends on the
/// machine, so nothing useful can be promised here; an unreadable list
/// counts as no match, exactly as a list without the name does.
/// `resolve_interface` carries the exact scan contract for every possible
/// list.
pub fn get_interface_address(name: &String) -> (r: IfaceLookup) {
    match fetch_interfaces() {
        Some(entries) => resolve_interface(&entries, name),
        None => IfaceLookup::NotFound,
    }
}

} // verus!
