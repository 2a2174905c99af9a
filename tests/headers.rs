use fetch_request::headers::{
    cors_safelisted_request_header, forbidden_header_name, parse_media_type, safelisted_content_type, Guard,
    HeaderError, HeaderList, HeadersInit,
};

fn names(list: &HeaderList) -> Vec<Vec<u8>> {
    list.entries().into_iter().map(|(n, _)| n).collect()
}

#[test]
fn append_lowercases_names_and_keeps_order() {
    let mut list = HeaderList::new(Guard::Unguarded);
    assert_eq!(list.append(b"X-One", b"1"), Ok(()));
    assert_eq!(list.append(b"Accept", b"text/html"), Ok(()));
    assert_eq!(
        list.entries(),
        vec![
            (b"x-one".to_vec(), b"1".to_vec()),
            (b"accept".to_vec(), b"text/html".to_vec())
        ]
    );
    assert!(list.has(b"ACCEPT"));
    assert!(!list.has(b"content-type"));
}

#[test]
fn append_rejects_malformed_headers() {
    let mut list = HeaderList::new(Guard::Request);
    assert_eq!(list.append(b"", b"v"), Err(HeaderError::InvalidName));
    assert_eq!(list.append(b"bad name", b"v"), Err(HeaderError::InvalidName));
    assert_eq!(list.append(b"x-a", b"line\r\nbreak"), Err(HeaderError::InvalidValue));
    assert!(list.entries().is_empty());
    let mut frozen = HeaderList::new(Guard::Immutable);
    assert_eq!(frozen.append(b"x-a", b"1"), Err(HeaderError::Immutable));
}

#[test]
fn request_guard_drops_forbidden_names() {
    let mut list = HeaderList::new(Guard::Request);
    assert_eq!(list.append(b"Cookie", b"a=b"), Ok(()));
    assert_eq!(list.append(b"Proxy-Authorization", b"x"), Ok(()));
    assert_eq!(list.append(b"Sec-Fetch-Mode", b"x"), Ok(()));
    assert_eq!(list.append(b"X-Ok", b"1"), Ok(()));
    assert_eq!(names(&list), vec![b"x-ok".to_vec()]);
}

#[test]
fn no_cors_guard_keeps_only_safelisted() {
    let mut list = HeaderList::new(Guard::RequestNoCors);
    assert_eq!(list.append(b"X-Custom", b"1"), Ok(()));
    assert_eq!(list.append(b"Accept", b"*/*"), Ok(()));
    assert_eq!(list.append(b"Content-Type", b"application/json"), Ok(()));
    assert_eq!(list.append(b"Content-Type", b"text/plain;charset=UTF-8"), Ok(()));
    assert_eq!(
        list.entries(),
        vec![
            (b"accept".to_vec(), b"*/*".to_vec()),
            (b"content-type".to_vec(), b"text/plain;charset=UTF-8".to_vec())
        ]
    );
}

#[test]
fn response_guard_drops_set_cookie() {
    let mut list = HeaderList::new(Guard::Response);
    assert_eq!(list.append(b"Set-Cookie", b"a=b"), Ok(()));
    assert_eq!(list.append(b"Cookie", b"a=b"), Ok(()));
    assert_eq!(names(&list), vec![b"cookie".to_vec()]);
}

#[test]
fn header_name_and_content_type_rules() {
    assert!(forbidden_header_name(b"Host"));
    assert!(forbidden_header_name(b"proxy-foo"));
    assert!(!forbidden_header_name(b"x-host"));
    assert!(safelisted_content_type(b"text/plain"));
    assert!(safelisted_content_type(b"Multipart/Form-Data; boundary=x"));
    assert!(!safelisted_content_type(b"text/html"));
    assert!(!safelisted_content_type(b"text/plainx"));
    assert!(cors_safelisted_request_header(b"Content-Language", b"en"));
    assert!(!cors_safelisted_request_header(b"Content-Type", b"image/png"));
}

#[test]
fn fill_from_each_shape() {
    let mut list = HeaderList::new(Guard::Request);
    let pairs = HeadersInit::Pairs(vec![vec![b"A".to_vec(), b"1".to_vec()]]);
    assert_eq!(list.fill(&pairs), Ok(()));
    let record = HeadersInit::Record(vec![(b"B".to_vec(), b"2".to_vec())]);
    assert_eq!(list.fill(&record), Ok(()));
    let mut other = HeaderList::new(Guard::Unguarded);
    other.append(b"C", b"3").unwrap();
    assert_eq!(list.fill(&HeadersInit::Headers(other)), Ok(()));
    assert_eq!(
        names(&list),
        vec![b"a".to_vec(), b"b".to_vec(), b"c".to_vec()]
    );
}

#[test]
fn fill_rejects_malformed_pair() {
    let mut list = HeaderList::new(Guard::Request);
    let pairs = HeadersInit::Pairs(vec![vec![b"A".to_vec()]]);
    assert_eq!(list.fill(&pairs), Err(HeaderError::MalformedPair));
}

#[test]
fn fill_stops_at_first_refused_header() {
    let mut list = HeaderList::new(Guard::Request);
    let record = HeadersInit::Record(vec![
        (b"A".to_vec(), b"1".to_vec()),
        (b"bad name".to_vec(), b"2".to_vec()),
    ]);
    assert_eq!(list.fill(&record), Err(HeaderError::InvalidName));
}

#[test]
fn mime_type_is_first_content_type() {
    let mut list = HeaderList::new(Guard::Unguarded);
    assert_eq!(list.extract_mime_type(), Vec::<u8>::new());
    list.append(b"Content-Type", b"text/html").unwrap();
    list.append(b"content-type", b"text/plain").unwrap();
    assert_eq!(list.extract_mime_type(), b"text/html".to_vec());
}

#[test]
fn copy_is_independent() {
    let mut list = HeaderList::new(Guard::Request);
    list.append(b"X-A", b"1").unwrap();
    let mut copy = list.copy();
    copy.append(b"X-B", b"2").unwrap();
    assert_eq!(copy.get_guard(), Guard::Request);
    assert_eq!(names(&list), vec![b"x-a".to_vec()]);
    assert_eq!(names(&copy), vec![b"x-a".to_vec(), b"x-b".to_vec()]);
    list.empty_header_list();
    assert!(list.entries().is_empty());
}

#[test]
fn media_type_parse() {
    assert_eq!(parse_media_type(b"text/plain"), b"text/plain".to_vec());
    assert_eq!(
        parse_media_type(b"text/plain;charset=UTF-8"),
        b"text/plain;charset=UTF-8".to_vec()
    );
    assert_eq!(
        parse_media_type(b"text/plain \t; charset=x"),
        b"text/plain \t; charset=x".to_vec()
    );
    assert_eq!(parse_media_type(b"x"), Vec::<u8>::new());
    assert_eq!(parse_media_type(b""), Vec::<u8>::new());
    assert_eq!(parse_media_type(b"text/"), Vec::<u8>::new());
    assert_eq!(parse_media_type(b"/plain"), Vec::<u8>::new());
    assert_eq!(parse_media_type(b"text/plain x"), Vec::<u8>::new());
    assert_eq!(parse_media_type(b"text/pl ain"), Vec::<u8>::new());
    assert_eq!(parse_media_type(b"text//plain"), Vec::<u8>::new());
}

#[test]
fn unparsable_content_type_gives_no_mime_type() {
    let mut list = HeaderList::new(Guard::Unguarded);
    list.append(b"Content-Type", b"x").unwrap();
    list.append(b"Content-Type", b"text/plain").unwrap();
    assert_eq!(list.extract_mime_type(), Vec::<u8>::new());
}
