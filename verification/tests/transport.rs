use otel_sdk::error::TransportError;
use otel_sdk::runtime::{plan_socket, AddrFamily, RemoteAddr};

#[test]
fn plan_socket_matches_ipv4_family() {
    let resolved = vec![RemoteAddr::V4 { octets: [127, 0, 0, 1], port: 6831 }];
    let plan = plan_socket(resolved.clone()).unwrap();
    assert_eq!(plan.family, AddrFamily::V4);
    assert_eq!(plan.remotes, resolved);
}

#[test]
fn plan_socket_matches_ipv6_family() {
    let resolved = vec![RemoteAddr::V6 { segments: [0, 0, 0, 0, 0, 0, 0, 1], port: 6831 }];
    let plan = plan_socket(resolved.clone()).unwrap();
    assert_eq!(plan.family, AddrFamily::V6);
    assert_eq!(plan.remotes, resolved);
}

#[test]
fn plan_socket_fails_on_empty_resolution_without_a_plan() {
    let planned = plan_socket(Vec::new());
    assert_eq!(planned.unwrap_err(), TransportError::Resolution);
}

#[test]
fn plan_socket_keeps_every_resolved_address() {
    let resolved = vec![
        RemoteAddr::V6 { segments: [0x20, 0, 0, 0, 0, 0, 0, 9], port: 4317 },
        RemoteAddr::V4 { octets: [10, 0, 0, 9], port: 4317 },
    ];
    let plan = plan_socket(resolved.clone()).unwrap();
    assert_eq!(plan.family, AddrFamily::V6);
    assert_eq!(plan.remotes.len(), 2);
    assert_eq!(plan.remotes, resolved);
}
