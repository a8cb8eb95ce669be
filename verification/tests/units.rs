use swatchdog::iface::{resolve_interface, IfaceEntry, IfaceIp, IfaceLookup};
use swatchdog::messages::{banner, not_ipv4_message, send_notice, unresolved_message};
use swatchdog::request::{build_query, build_target, status_text};
use swatchdog::state::{record_resolution, Status};

#[test]
fn first_resolution_reports_up() {
    let mut last: Option<String> = None;
    let status = record_resolution(&mut last, &String::from("10.0.0.5"));
    assert_eq!(status, Status::Up);
    assert_eq!(last.as_deref(), Some("10.0.0.5"));
}

#[test]
fn steady_address_stays_up() {
    let mut last: Option<String> = None;
    let addr = String::from("10.0.0.5");
    let mut statuses = Vec::new();
    for _ in 0..5 {
        statuses.push(record_resolution(&mut last, &addr));
    }
    assert!(statuses.iter().all(|s| *s == Status::Up));
}

#[test]
fn change_then_steady() {
    let mut last: Option<String> = Some(String::from("10.0.0.5"));
    let status = record_resolution(&mut last, &String::from("10.0.0.6"));
    assert_eq!(status, Status::Pending);
    let status = record_resolution(&mut last, &String::from("10.0.0.6"));
    assert_eq!(status, Status::Up);
}

#[test]
fn overwrite_happens_even_when_unchanged() {
    let mut last: Option<String> = Some(String::from("10.0.0.5"));
    let status = record_resolution(&mut last, &String::from("10.0.0.5"));
    assert_eq!(status, Status::Up);
    assert_eq!(last.as_deref(), Some("10.0.0.5"));
}

#[test]
fn status_text_exact() {
    assert_eq!(status_text(Status::Up), "up");
    assert_eq!(status_text(Status::Pending), "pending");
}

#[test]
fn build_query_exact() {
    let q = build_query(Status::Up, &String::from("1.2.3.4"));
    assert_eq!(q, "status=up&msg=1.2.3.4&ping=");
    let q = build_query(Status::Pending, &String::from("10.0.0.6"));
    assert_eq!(q, "status=pending&msg=10.0.0.6&ping=");
}

#[test]
fn attached_query_replaces_existing_query() {
    let resolved = Some((Status::Up, String::from("1.2.3.4")));
    let target = build_target(&String::from("http://example.com/a?old=1"), &resolved);
    assert_eq!(target, "http://example.com/a?status=up&msg=1.2.3.4&ping=");
}

#[test]
fn unparsable_url_is_left_alone() {
    let resolved = Some((Status::Up, String::from("1.2.3.4")));
    let target = build_target(&String::from("not a url"), &resolved);
    assert_eq!(target, "not a url");
}

#[test]
fn no_resolution_keeps_url() {
    let target = build_target(&String::from("http://example.com/a?old=1"), &None);
    assert_eq!(target, "http://example.com/a?old=1");
}

#[test]
fn resolve_takes_first_name_match() {
    let entries = vec![
        IfaceEntry {
            name: String::from("eth0"),
            ip: IfaceIp::Other,
        },
        IfaceEntry {
            name: String::from("eth0"),
            ip: IfaceIp::V4(String::from("10.0.0.5")),
        },
    ];
    let lookup = resolve_interface(&entries, &String::from("eth0"));
    assert!(matches!(lookup, IfaceLookup::NotIpv4));
}

#[test]
fn resolve_finds_ipv4_by_name() {
    let entries = vec![
        IfaceEntry {
            name: String::from("lo"),
            ip: IfaceIp::V4(String::from("127.0.0.1")),
        },
        IfaceEntry {
            name: String::from("eth0"),
            ip: IfaceIp::V4(String::from("10.0.0.5")),
        },
    ];
    match resolve_interface(&entries, &String::from("eth0")) {
        IfaceLookup::Found(addr) => assert_eq!(addr, "10.0.0.5"),
        other => panic!("expected Found, got {:?}", other),
    }
}

#[test]
fn resolve_empty_list_finds_nothing() {
    let entries: Vec<IfaceEntry> = Vec::new();
    let lookup = resolve_interface(&entries, &String::from("eth0"));
    assert!(matches!(lookup, IfaceLookup::NotFound));
}

#[test]
fn os_lookup_of_absent_interface_finds_nothing() {
    let lookup =
        swatchdog::iface::get_interface_address(&String::from("no_such_interface_zz9"));
    assert!(matches!(lookup, IfaceLookup::NotFound));
}

#[test]
fn messages_exact() {
    assert_eq!(banner(&String::from("1.2.3")), "swatchdog v1.2.3 started!");
    assert_eq!(
        not_ipv4_message(&String::from("eth0")),
        "Error: Interface 'eth0' is not an IPv4 address"
    );
    assert_eq!(
        unresolved_message(&String::from("eth0")),
        "Error: Unable to retrieve IPv4 address for interface 'eth0'"
    );
    assert_eq!(
        send_notice(&String::from("http://example.com/beat")),
        "Send request to http://example.com/beat ... "
    );
}
