use rama::context::Context;
use rama::dns::{parse_dns_overrides, DnsOverrides};
use rama::ip::{parse_ip, IpAddr, Ipv4Addr, Ipv6Addr};
use rama::dns_map::DnsMapService;
use rama::headers::HeaderMap;

fn v4(a: u8, b: u8, c: u8, d: u8) -> IpAddr {
    IpAddr::V4(Ipv4Addr::new(a, b, c, d))
}

fn headers_with(name: &str, value: &str) -> HeaderMap {
    let mut h = HeaderMap::new();
    h.insert(name.as_bytes().to_vec(), value.as_bytes().to_vec());
    h
}

#[test]
fn dns_map_valid_header_fills_table() {
    let svc = DnsMapService::new((), b"x-dns-map".to_vec());
    let mut ctx = Context::new(());
    let headers = headers_with("x-dns-map", "example.com=127.0.0.1");
    assert!(svc.apply_dns_overrides(&mut ctx, &headers).is_ok());
    assert_eq!(ctx.dns().lookup(b"example.com"), Some(vec![v4(127, 0, 0, 1)]));
    assert_eq!(ctx.dns().lookup(b"example.org"), None);
}

#[test]
fn dns_map_several_pairs() {
    let svc = DnsMapService::new((), b"x-dns-map".to_vec());
    let mut ctx = Context::new(());
    let headers = headers_with("x-dns-map", "a.com=1.2.3.4,b.com=10.0.0.1,a.com=5.6.7.8");
    assert!(svc.apply_dns_overrides(&mut ctx, &headers).is_ok());
    assert_eq!(
        ctx.dns().lookup(b"a.com"),
        Some(vec![v4(1, 2, 3, 4), v4(5, 6, 7, 8)])
    );
    assert_eq!(ctx.dns().lookup(b"b.com"), Some(vec![v4(10, 0, 0, 1)]));
}

#[test]
fn dns_map_absent_header_is_noop() {
    let svc = DnsMapService::new((), b"x-dns-map".to_vec());
    let mut ctx = Context::new(());
    let mut seed = DnsOverrides::new();
    seed.push_address(b"keep.me".to_vec(), v4(9, 9, 9, 9));
    ctx.extend_dns_overrides(seed);
    let headers = headers_with("x-other", "example.com=127.0.0.1");
    assert!(svc.apply_dns_overrides(&mut ctx, &headers).is_ok());
    assert_eq!(ctx.dns().lookup(b"keep.me"), Some(vec![v4(9, 9, 9, 9)]));
    assert_eq!(ctx.dns().lookup(b"example.com"), None);
}

#[test]
fn dns_map_malformed_header_fails() {
    let svc = DnsMapService::new((), b"x-dns-map".to_vec());
    for bad in ["example.com", "=1.2.3.4", "a.com=1.2.3", "a.com=256.0.0.1", "a.com=01.2.3.4", "a.com=1.2.3.4,", "a.com=1.2.3.4=5"] {
        let mut ctx = Context::new(());
        let err = svc.apply_dns_overrides(&mut ctx, &headers_with("x-dns-map", bad)).unwrap_err();
        assert_eq!(err.header_name, b"x-dns-map".to_vec());
        assert_eq!(ctx.dns().lookup(b"a.com"), None);
    }
}

#[test]
fn dns_map_merge_new_entries_win() {
    let svc = DnsMapService::new((), b"x-dns-map".to_vec());
    let mut ctx = Context::new(());
    let mut seed = DnsOverrides::new();
    seed.push_address(b"a.com".to_vec(), v4(9, 9, 9, 9));
    seed.push_address(b"b.com".to_vec(), v4(8, 8, 8, 8));
    ctx.extend_dns_overrides(seed);
    assert!(svc.apply_dns_overrides(&mut ctx, &headers_with("x-dns-map", "a.com=1.1.1.1")).is_ok());
    assert_eq!(ctx.dns().lookup(b"a.com"), Some(vec![v4(1, 1, 1, 1)]));
    assert_eq!(ctx.dns().lookup(b"b.com"), Some(vec![v4(8, 8, 8, 8)]));
}

#[test]
fn dns_map_custom_separator() {
    let svc = DnsMapService::new((), b"x-dns-map".to_vec()).separator(b';');
    let mut ctx = Context::new(());
    assert!(svc.apply_dns_overrides(&mut ctx, &headers_with("x-dns-map", "a.com=0.0.0.0;b.com=255.255.255.255")).is_ok());
    assert_eq!(ctx.dns().lookup(b"a.com"), Some(vec![v4(0, 0, 0, 0)]));
    assert_eq!(ctx.dns().lookup(b"b.com"), Some(vec![v4(255, 255, 255, 255)]));
}

#[test]
fn dns_overrides_parse_empty_value() {
    let t = parse_dns_overrides(b"", b',').unwrap();
    assert!(!t.contains_host(b""));
    assert!(parse_dns_overrides(b",", b',').is_none());
}

#[test]
fn dns_map_ipv6_addresses() {
    let svc = DnsMapService::new((), b"x-dns-map".to_vec());
    let mut ctx = Context::new(());
    let headers = headers_with("x-dns-map", "a.com=::1,a.com=2001:DB8::ff00:42:8329,b.com=1:2:3:4:5:6:7:8");
    assert!(svc.apply_dns_overrides(&mut ctx, &headers).is_ok());
    assert_eq!(
        ctx.dns().lookup(b"a.com"),
        Some(vec![
            IpAddr::V6(Ipv6Addr::new(0, 0, 0, 0, 0, 0, 0, 1)),
            IpAddr::V6(Ipv6Addr::new(0x2001, 0xdb8, 0, 0, 0, 0xff00, 0x42, 0x8329)),
        ])
    );
    assert_eq!(
        ctx.dns().lookup(b"b.com"),
        Some(vec![IpAddr::V6(Ipv6Addr::new(1, 2, 3, 4, 5, 6, 7, 8))])
    );
}

#[test]
fn ip_parse_forms() {
    assert_eq!(parse_ip(b"::"), Some(IpAddr::V6(Ipv6Addr::new(0, 0, 0, 0, 0, 0, 0, 0))));
    assert_eq!(parse_ip(b"1::"), Some(IpAddr::V6(Ipv6Addr::new(1, 0, 0, 0, 0, 0, 0, 0))));
    assert_eq!(parse_ip(b"ffff::ABCD"), Some(IpAddr::V6(Ipv6Addr::new(0xffff, 0, 0, 0, 0, 0, 0, 0xabcd))));
    assert_eq!(parse_ip(b"192.168.0.1"), Some(v4(192, 168, 0, 1)));
    for bad in [
        "", ":", ":::", "1::2::3", "12345::", "g::", "1:2:3:4:5:6:7", "1:2:3:4:5:6:7:8:9",
        "1:2:3:4::5:6:7:8", ":1:2:3:4:5:6:7", "1.2.3.4.5", "1..2.3", "300.1.1.1",
    ] {
        assert_eq!(parse_ip(bad.as_bytes()), None, "{bad}");
    }
}
