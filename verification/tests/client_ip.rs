use justaskrepo::client_ip::{client_ip, forwarded_entries, rate_limit_subject, IpAddr, RateLimitSubject};

/// The socket peer, 203.0.113.9 (port 44001).
fn peer() -> IpAddr {
    IpAddr::V4([203, 0, 113, 9])
}

/// A dotted IPv4 address; the application parses entries with the standard
/// library, and every address in these fixtures is IPv4.
fn parse_v4(text: &str) -> Option<IpAddr> {
    let parts: Vec<&str> = text.split('.').collect();
    if parts.len() != 4 {
        return None;
    }
    let mut octets = [0u8; 4];
    for (slot, part) in octets.iter_mut().zip(parts) {
        if part.is_empty() || !part.chars().all(|c| c.is_ascii_digit()) {
            return None;
        }
        *slot = part.parse().ok()?;
    }
    Some(IpAddr::V4(octets))
}

fn ip(text: &str) -> IpAddr {
    parse_v4(text).unwrap_or(IpAddr::V4([0, 0, 0, 0]))
}

/// The forwarded entries of these header values, each parsed, `None` where
/// it is not an address.
fn headers(forwarded: &[&str]) -> Vec<Option<IpAddr>> {
    let values: Vec<String> = forwarded.iter().map(|v| v.to_string()).collect();
    forwarded_entries(&values)
        .iter()
        .map(|entry| parse_v4(entry))
        .collect()
}

#[test]
fn with_no_trusted_proxies_the_header_is_ignored_entirely() {
    assert_eq!(client_ip(&headers(&["1.2.3.4"]), peer(), 0), ip("203.0.113.9"));
}

#[test]
fn one_trusted_proxy_yields_the_address_that_proxy_saw() {
    assert_eq!(
        client_ip(&headers(&["198.51.100.7"]), peer(), 1),
        ip("198.51.100.7")
    );
}

/// The attacker prepends a forged entry; our proxy appends what it actually
/// observed; one hop back skips the forgery.
#[test]
fn a_forged_prefix_cannot_shift_the_bucket() {
    let forged = headers(&["9.9.9.9, 8.8.8.8, 198.51.100.7"]);
    assert_eq!(client_ip(&forged, peer(), 1), ip("198.51.100.7"));
}

/// A CDN in front of a reverse proxy: two appended entries, so the client
/// is two hops back from the peer.
#[test]
fn two_trusted_proxies_step_two_entries_back() {
    let chain = headers(&["9.9.9.9, 198.51.100.7, 192.0.2.50"]);
    assert_eq!(client_ip(&chain, peer(), 2), ip("198.51.100.7"));
}

/// Proxies are free to split the chain across repeated headers.
#[test]
fn the_chain_may_arrive_as_repeated_headers() {
    let split = headers(&["9.9.9.9", "198.51.100.7"]);
    assert_eq!(client_ip(&split, peer(), 1), ip("198.51.100.7"));
}

/// Misconfiguration falls back to the peer, never to the forgeable end.
#[test]
fn more_hops_than_the_chain_holds_falls_back_to_the_peer() {
    assert_eq!(client_ip(&headers(&["1.2.3.4"]), peer(), 4), ip("203.0.113.9"));
    assert_eq!(client_ip(&headers(&[]), peer(), 1), ip("203.0.113.9"));
}

/// Unparseable entries are dropped; counting from the right makes that safe.
#[test]
fn junk_entries_are_dropped_not_counted() {
    let noisy = headers(&["_hidden, 198.51.100.7"]);
    assert_eq!(client_ip(&noisy, peer(), 1), ip("198.51.100.7"));
}

#[test]
fn entries_are_split_on_commas_and_trimmed() {
    let values = vec![" 9.9.9.9 ,8.8.8.8,".to_string(), "\t1.2.3.4".to_string()];
    assert_eq!(
        forwarded_entries(&values),
        vec!["9.9.9.9", "8.8.8.8", "", "1.2.3.4"]
    );
    assert_eq!(forwarded_entries(&vec![]), Vec::<String>::new());
}

#[test]
fn an_ipv4_subject_is_the_address_itself() {
    assert_eq!(
        rate_limit_subject(ip("203.0.113.9")),
        RateLimitSubject::V4([203, 0, 113, 9])
    );
}

#[test]
fn ipv6_addresses_in_one_slash_64_share_a_budget() {
    let first = rate_limit_subject(IpAddr::V6([0x2001, 0xdb8, 1, 2, 0, 0, 0, 1]));
    let second = rate_limit_subject(IpAddr::V6([0x2001, 0xdb8, 1, 2, 0xffff, 0xffff, 0xffff, 0xffff]));
    assert_eq!(first, second);
    assert_eq!(first, RateLimitSubject::V6Network([0x2001, 0xdb8, 1, 2]));
}

#[test]
fn separate_slash_64s_are_separate_budgets() {
    assert_ne!(
        rate_limit_subject(IpAddr::V6([0x2001, 0xdb8, 1, 2, 0, 0, 0, 1])),
        rate_limit_subject(IpAddr::V6([0x2001, 0xdb8, 1, 3, 0, 0, 0, 1]))
    );
}

#[test]
fn ipv4_mapped_addresses_do_not_collapse_into_one_bucket() {
    assert_eq!(
        rate_limit_subject(IpAddr::V6([0, 0, 0, 0, 0, 0xffff, 0xcb00, 0x7109])),
        RateLimitSubject::V4([203, 0, 113, 9])
    );
    assert_ne!(
        rate_limit_subject(IpAddr::V6([0, 0, 0, 0, 0, 0xffff, 0xcb00, 0x7109])),
        rate_limit_subject(IpAddr::V6([0, 0, 0, 0, 0, 0xffff, 0xc633, 0x6407]))
    );
}

#[test]
fn loopback_is_not_mistaken_for_a_mapped_ipv4_address() {
    assert_eq!(
        rate_limit_subject(IpAddr::V6([0, 0, 0, 0, 0, 0, 0, 1])),
        RateLimitSubject::V6Network([0, 0, 0, 0])
    );
}
