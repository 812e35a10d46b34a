use divviup_api::net::{is_private_ip, is_private_ipv4, is_private_ipv6, IpAddress};
use divviup_api::{check_resolved_addresses, validate_aggregator_url, HostResolution, Url};

fn url(s: &str) -> Url {
    Url::parse(s).unwrap()
}

#[test]
fn private_ipv4_addresses() {
    assert!(is_private_ipv4([127, 0, 0, 1])); // loopback
    assert!(is_private_ipv4([10, 0, 0, 1])); // RFC 1918
    assert!(is_private_ipv4([172, 16, 0, 1])); // RFC 1918
    assert!(is_private_ipv4([192, 168, 1, 1])); // RFC 1918
    assert!(is_private_ipv4([169, 254, 169, 254])); // link-local / metadata
    assert!(is_private_ipv4([0, 0, 0, 0])); // unspecified
    assert!(is_private_ipv4([100, 64, 0, 1])); // RFC 6598
    assert!(is_private_ipv4([100, 127, 255, 255])); // RFC 6598 upper
    assert!(!is_private_ipv4([8, 8, 8, 8])); // public
    assert!(!is_private_ipv4([100, 128, 0, 1])); // just outside RFC 6598
}

#[test]
fn private_ipv6_addresses() {
    assert!(is_private_ipv6([0, 0, 0, 0, 0, 0, 0, 1])); // ::1
    assert!(is_private_ipv6([0, 0, 0, 0, 0, 0, 0, 0])); // ::
    assert!(is_private_ipv6([0xfc00, 0, 0, 0, 0, 0, 0, 1])); // fc00::1, unique local
    assert!(is_private_ipv6([0xfe80, 0, 0, 0, 0, 0, 0, 1])); // fe80::1, link-local
    assert!(is_private_ipv6([0, 0, 0, 0, 0, 0xffff, 0x7f00, 0x0001])); // ::ffff:127.0.0.1
    assert!(is_private_ipv6([0, 0, 0, 0, 0, 0xffff, 0xa9fe, 0xa9fe])); // ::ffff:169.254.169.254
    assert!(!is_private_ipv6([0x2001, 0x4860, 0x4860, 0, 0, 0, 0, 0x8888])); // public
}

#[test]
fn private_ip_dispatch() {
    assert!(is_private_ip(IpAddress::V4([127, 0, 0, 1])));
    assert!(is_private_ip(IpAddress::V6([0, 0, 0, 0, 0, 0, 0, 1])));
    assert!(!is_private_ip(IpAddress::V4([8, 8, 8, 8])));
}

#[test]
fn validate_rejects_private_ip_literals() {
    assert!(validate_aggregator_url(&url("https://169.254.169.254/latest/")).is_err());
    assert!(validate_aggregator_url(&url("https://127.0.0.1/")).is_err());
    assert!(validate_aggregator_url(&url("https://10.0.0.1/")).is_err());
    assert!(validate_aggregator_url(&url("https://[::1]/")).is_err());
}

#[test]
fn validate_rejects_localhost_hostname() {
    assert!(validate_aggregator_url(&url("https://localhost/")).is_err());
    assert!(validate_aggregator_url(&url("https://LOCALHOST/")).is_err());
}

#[test]
fn validate_accepts_public_ip_literal() {
    assert!(validate_aggregator_url(&url("https://8.8.8.8/")).is_ok());
}

#[test]
fn private_address_code_is_reported_on_api_url() {
    let errors = validate_aggregator_url(&url("https://10.0.0.1/")).unwrap_err();
    assert_eq!(errors.codes_for("api_url"), vec!["private-address"]);
    let errors = validate_aggregator_url(&url("mailto:someone@example.com")).unwrap_err();
    assert_eq!(errors.codes_for("api_url"), vec!["invalid-url"]);
}

#[test]
fn domain_hosts_are_looked_up_on_their_port() {
    match validate_aggregator_url(&url("https://aggregator.example.com/api")).unwrap() {
        HostResolution::Lookup { host, port } => {
            assert_eq!(host, "aggregator.example.com");
            assert_eq!(port, 443);
        }
        other => panic!("unexpected {other:?}"),
    }
    match validate_aggregator_url(&url("https://aggregator.example.com:8443/")).unwrap() {
        HostResolution::Lookup { host, port } => {
            assert_eq!(host, "aggregator.example.com");
            assert_eq!(port, 8443);
        }
        other => panic!("unexpected {other:?}"),
    }
    assert!(matches!(
        validate_aggregator_url(&url("https://[2001:4860:4860::8888]/")).unwrap(),
        HostResolution::Checked
    ));
}

#[test]
fn resolved_addresses_are_checked() {
    assert!(check_resolved_addresses(Some(vec![IpAddress::V4([8, 8, 8, 8])])).is_ok());
    let errors = check_resolved_addresses(Some(vec![
        IpAddress::V4([8, 8, 8, 8]),
        IpAddress::V4([10, 1, 2, 3]),
    ]))
    .unwrap_err();
    assert_eq!(errors.codes_for("api_url"), vec!["private-address"]);
    let errors = check_resolved_addresses(None).unwrap_err();
    assert_eq!(errors.codes_for("api_url"), vec!["dns-resolution-failed"]);
    assert!(check_resolved_addresses(Some(vec![])).is_ok());
}
