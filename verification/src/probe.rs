//! The per-tick probe decision: given the configuration, the outcome of
//! interface resolution, and the shared last-address cell, decide the
//! request target and update the cell.
use vstd::prelude::*;
use crate::iface::IfaceLookup;
use crate::request::{build_target, fits_url_limit, spec_query, url_parses, with_query};
use crate::state::{record_resolution, spec_status};

verus! {

/// The agent's configuration, immutable after startup. The process parses
/// and validates the command line into this form before the first tick.
#[derive(Clone, Debug)]
pub struct Config {
    /// The configured target URL.
    pub url: String,
    /// The HTTP method used for every probe.
    pub method: String,
    /// The pause between probe-task spawns, in milliseconds.
    pub interval_ms: u64,
    /// Whether pre- and post-send notices are emitted.
    pub verbose: bool,
    /// The name of the interface whose IPv4 address is embedded, if any.
    pub interface: Option<String>,
}

/// The query string one probe sends, given the previously recorded
/// address and the newly resolved one.
pub open spec fn probe_query(prev: Option<Seq<char>>, addr: Seq<char>) -> Seq<char> {
    spec_query(spec_status(prev, addr), addr)
}

/// One probe's read-compare-write and request construction, after
/// resolution has run (or been skipped): decide the request target and
/// update the shared last-address cell.
///
/// `lookup` is `None` when no interface is configured, and otherwise the
/// resolution outcome. Only a resolved address touches the cell or the
/// URL; every other outcome dispatches the configured URL unchanged and
/// leaves the cell exactly as it was. The caller holds the cell under a
/// lock across this call and nothing else.
pub fn plan_probe(cfg: &Config, lookup: &Option<IfaceLookup>, last: &mut Option<String>) -> (t:
    String)
    ensures
        !(lookup matches Some(IfaceLookup::Found(_))) ==> {
            &&& t@ == cfg.url@
            &&& *final(last) == *old(last)
        },
        lookup matches Some(IfaceLookup::Found(addr)) ==> {
            &&& final(last).deep_view() == Some(addr@)
            &&& fits_url_limit(cfg.url@, probe_query(old(last).deep_view(), addr@)) && url_parses(
                cfg.url@,
            ) ==> t@ == with_query(cfg.url@, probe_query(old(last).deep_view(), addr@))
            &&& !(fits_url_limit(cfg.url@, probe_query(old(last).deep_view(), addr@))
                && url_parses(cfg.url@)) ==> t@ == cfg.url@
        },
{
    match lookup {
        Some(IfaceLookup::Found(addr)) => {
            let status = record_resolution(last, addr);
            build_target(&cfg.url, &Some((status, addr.clone())))
        },
        _ => cfg.url.clone(),
    }
}

} // verus!
