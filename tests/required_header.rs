use rama::headers::HeaderMap;
use rama::required_header::{AddRequiredResponseHeaders, AddRequiredResponseHeadersLayer};

const DATE_VALUE: &[u8] = b"Mon, 19 Oct 2026 12:00:00 GMT";

/// Stands for the inner service: checks the request, gives the response headers.
fn inner(req: &HeaderMap, resp: &[(&[u8], &[u8])]) -> HeaderMap {
    assert!(!req.contains_key(b"server"));
    assert!(!req.contains_key(b"date"));
    let mut headers = HeaderMap::new();
    for (name, value) in resp {
        headers.insert(name.to_vec(), value.to_vec());
    }
    headers
}

#[test]
fn add_required_response_headers() {
    let svc = AddRequiredResponseHeadersLayer::default().layer(());
    let mut headers = inner(&HeaderMap::new(), &[]);
    svc.add_required_headers(&mut headers, DATE_VALUE.to_vec());
    assert_eq!(headers.get(b"server").unwrap(), &b"rama/0.2.0".to_vec());
    assert!(headers.contains_key(b"date"));
}

#[test]
fn add_required_response_headers_overwrite() {
    let svc = AddRequiredResponseHeadersLayer::new().overwrite(true).layer(());
    let mut headers = inner(&HeaderMap::new(), &[(b"server", b"foo"), (b"date", b"bar")]);
    svc.add_required_headers(&mut headers, DATE_VALUE.to_vec());
    assert_eq!(headers.get(b"server").unwrap(), &b"rama/0.2.0".to_vec());
    assert_ne!(headers.get(b"date").unwrap(), &b"bar".to_vec());
}

#[test]
fn required_headers_kept_without_overwrite() {
    let mut svc = AddRequiredResponseHeaders::new(());
    svc.set_overwrite(false);
    let mut headers = HeaderMap::new();
    headers.insert(b"server".to_vec(), b"foo".to_vec());
    headers.insert(b"x-other".to_vec(), b"1".to_vec());
    svc.add_required_headers(&mut headers, DATE_VALUE.to_vec());
    assert_eq!(headers.get(b"server").unwrap(), &b"foo".to_vec());
    assert_eq!(headers.get(b"date").unwrap(), &DATE_VALUE.to_vec());
    assert_eq!(headers.get(b"x-other").unwrap(), &b"1".to_vec());
}

#[test]
fn layer_settings() {
    let mut layer = AddRequiredResponseHeadersLayer::new();
    layer.set_overwrite(true);
    let svc = layer.layer(7u8);
    assert_eq!(*svc.get_ref(), 7u8);
    let mut headers = HeaderMap::new();
    headers.insert(b"date".to_vec(), b"bar".to_vec());
    svc.add_required_headers(&mut headers, DATE_VALUE.to_vec());
    assert_eq!(headers.get(b"date").unwrap(), &DATE_VALUE.to_vec());
    assert_eq!(svc.into_inner(), 7u8);
}

#[test]
fn header_map_insert_replaces() {
    let mut headers = HeaderMap::new();
    headers.insert(b"a".to_vec(), b"1".to_vec());
    headers.insert(b"b".to_vec(), b"2".to_vec());
    headers.insert(b"a".to_vec(), b"3".to_vec());
    assert_eq!(headers.get(b"a").unwrap(), &b"3".to_vec());
    assert_eq!(headers.get(b"b").unwrap(), &b"2".to_vec());
    assert!(headers.get(b"c").is_none());
}
