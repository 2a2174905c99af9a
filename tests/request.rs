use fetch_request::body::BodyInit;
use fetch_request::headers::{Guard, HeaderError, HeadersInit};
use fetch_request::method::Method;
use fetch_request::request::{
    resolve_referrer, CacheMode, CredentialsMode, Destination, Mode, RedirectMode, Referrer,
    ReferrerPolicy, Request, RequestInfo, RequestInit, RequestType, TypeError, Window, WindowInit,
};
use fetch_request::urls::Global;

fn global() -> Global {
    Global::parse("http://example.com/dir/page.html", 7).unwrap()
}

fn from_url(g: &Global, url: &str, init: &RequestInit) -> Result<Request, TypeError> {
    Request::Constructor(g, RequestInfo::Url(url.to_string()), init)
}

fn with_method(m: &str) -> RequestInit {
    let mut init = RequestInit::empty();
    init.method = Some(m.as_bytes().to_vec());
    init
}

fn text_body(s: &str) -> Option<Option<BodyInit>> {
    Some(Some(BodyInit::Text(s.to_string())))
}

#[test]
fn url_without_options_takes_fallbacks() {
    let g = global();
    let r = from_url(&g, "http://example.com/a", &RequestInit::empty()).unwrap();
    assert_eq!(r.Mode(), Mode::Cors);
    assert_eq!(r.Credentials(), CredentialsMode::Omit);
    assert_eq!(r.Method(), "GET");
    assert!(!r.BodyUsed());
    assert_eq!(r.Url(), "http://example.com/a");
    assert_eq!(r.Cache(), CacheMode::Default);
    assert_eq!(r.Redirect(), RedirectMode::Follow);
    assert_eq!(r.Referrer(), "client");
    assert_eq!(r.ReferrerPolicy(), None);
    assert_eq!(r.Integrity(), "");
    assert_eq!(r.Type(), RequestType::Unspecified);
    assert_eq!(r.Destination(), Destination::Unspecified);
    assert_eq!(r.window(), Window::Client);
    assert!(r.unsafe_request());
    assert_eq!(r.Headers().get_guard(), Guard::Request);
}

#[test]
fn relative_url_resolves_against_base() {
    let g = global();
    let r = from_url(&g, "other?q=1", &RequestInit::empty()).unwrap();
    assert_eq!(r.Url(), "http://example.com/dir/other?q=1");
}

#[test]
fn unparsable_url_fails() {
    let g = global();
    assert_eq!(
        from_url(&g, "http://[::1", &RequestInit::empty()).err(),
        Some(TypeError::UrlNotParsed)
    );
}

#[test]
fn url_with_credentials_fails() {
    let g = global();
    assert_eq!(
        from_url(&g, "http://user@example.com/", &RequestInit::empty()).err(),
        Some(TypeError::UrlIncludesCredentials)
    );
    assert_eq!(
        from_url(&g, "http://:secret@example.com/", &RequestInit::empty()).err(),
        Some(TypeError::UrlIncludesCredentials)
    );
}

#[test]
fn forbidden_methods_rejected_in_any_case() {
    let g = global();
    for m in ["CONNECT", "connect", "TRACE", "tRaCe", "TRACK", "track"] {
        assert!(from_url(&g, "http://example.com/", &with_method(m)).is_err(), "{}", m);
    }
    assert_eq!(
        from_url(&g, "http://example.com/", &with_method("Connect")).err(),
        Some(TypeError::ForbiddenMethod)
    );
    let mut init = with_method("TRACE");
    init.mode = Some(Mode::SameOrigin);
    init.cache = Some(CacheMode::NoStore);
    assert_eq!(
        from_url(&g, "http://example.com/", &init).err(),
        Some(TypeError::ForbiddenMethod)
    );
}

#[test]
fn unknown_method_rejected() {
    let g = global();
    assert_eq!(
        from_url(&g, "http://example.com/", &with_method("FOO")).err(),
        Some(TypeError::NotAMethod)
    );
}

#[test]
fn method_option_is_normalized() {
    let g = global();
    let r = from_url(&g, "http://example.com/", &with_method("delete")).unwrap();
    assert_eq!(r.Method(), "DELETE");
    assert_eq!(r.method(), &Method::Delete);
}

#[test]
fn only_if_cached_needs_same_origin_mode() {
    let g = global();
    let mut init = RequestInit::empty();
    init.cache = Some(CacheMode::OnlyIfCached);
    init.mode = Some(Mode::Cors);
    assert_eq!(
        from_url(&g, "http://example.com/", &init).err(),
        Some(TypeError::OnlyIfCachedNotSameOrigin)
    );
    let mut init = RequestInit::empty();
    init.cache = Some(CacheMode::OnlyIfCached);
    init.mode = Some(Mode::SameOrigin);
    let r = from_url(&g, "http://example.com/", &init).unwrap();
    assert_eq!(r.Cache(), CacheMode::OnlyIfCached);
    assert_eq!(r.Mode(), Mode::SameOrigin);
}

#[test]
fn body_with_get_fails_and_with_post_succeeds() {
    let g = global();
    let mut init = with_method("GET");
    init.body = text_body("hello");
    assert_eq!(
        from_url(&g, "http://example.com/", &init).err(),
        Some(TypeError::BodyWithGetOrHead)
    );
    let mut init = with_method("HEAD");
    init.body = text_body("hello");
    assert_eq!(
        from_url(&g, "http://example.com/", &init).err(),
        Some(TypeError::BodyWithGetOrHead)
    );
    let mut init = with_method("POST");
    init.body = text_body("hello");
    let mut r = from_url(&g, "http://example.com/", &init).unwrap();
    assert_eq!(r.Method(), "POST");
    assert_eq!(r.get_mime_type(), b"text/plain;charset=UTF-8".to_vec());
    assert_eq!(r.consume_body(), Ok(b"hello".to_vec()));
}

#[test]
fn null_body_with_get_is_allowed() {
    let g = global();
    let mut init = RequestInit::empty();
    init.body = Some(None);
    let r = from_url(&g, "http://example.com/", &init).unwrap();
    assert!(!r.has_body());
}

#[test]
fn clone_copies_and_stays_independent() {
    let g = global();
    let mut init = with_method("POST");
    init.body = text_body("data");
    init.headers = Some(HeadersInit::Record(vec![(b"X-A".to_vec(), b"1".to_vec())]));
    let original = from_url(&g, "http://example.com/c", &init).unwrap();
    let mut copy = original.Clone().unwrap();
    assert_eq!(copy.Url(), original.Url());
    assert_eq!(copy.Method(), "POST");
    assert_eq!(copy.Headers().entries(), original.Headers().entries());
    assert_eq!(copy.Headers().get_guard(), original.Headers().get_guard());
    assert_eq!(copy.get_mime_type(), original.get_mime_type());
    assert_eq!(copy.append_header(b"X-B", b"2"), Ok(()));
    assert_eq!(copy.Headers().entries().len(), 3);
    assert_eq!(
        original.Headers().entries(),
        vec![
            (b"x-a".to_vec(), b"1".to_vec()),
            (b"content-type".to_vec(), b"text/plain;charset=UTF-8".to_vec())
        ]
    );
    assert_eq!(copy.consume_body(), Ok(b"data".to_vec()));
    assert!(original.has_body());
    assert!(!original.BodyUsed());
}

#[test]
fn clone_of_disturbed_request_fails() {
    let g = global();
    let mut init = with_method("POST");
    init.body = text_body("x");
    let mut r = from_url(&g, "http://example.com/", &init).unwrap();
    r.consume_body().unwrap();
    assert_eq!(r.Clone().err(), Some(TypeError::Disturbed));
}

#[test]
fn referrer_empty_is_no_referrer() {
    let g = global();
    let mut init = RequestInit::empty();
    init.referrer = Some(String::new());
    let r = from_url(&g, "http://example.com/", &init).unwrap();
    assert_eq!(r.Referrer(), "no-referrer");
    assert!(matches!(r.referrer(), Referrer::NoReferrer));
}

#[test]
fn referrer_about_client_is_client() {
    let g = global();
    let mut init = RequestInit::empty();
    init.referrer = Some("about:client".to_string());
    let r = from_url(&g, "http://example.com/", &init).unwrap();
    assert_eq!(r.Referrer(), "client");
}

#[test]
fn referrer_same_origin_is_kept() {
    let g = global();
    let mut init = RequestInit::empty();
    init.referrer = Some("/from".to_string());
    let r = from_url(&g, "http://example.com/", &init).unwrap();
    assert_eq!(r.Referrer(), "http://example.com/from");
}

#[test]
fn referrer_cross_origin_fails() {
    let g = global();
    let mut init = RequestInit::empty();
    init.referrer = Some("http://other.org/".to_string());
    assert_eq!(
        from_url(&g, "http://example.com/", &init).err(),
        Some(TypeError::ReferrerInvalidOrigin)
    );
    let mut init = RequestInit::empty();
    init.referrer = Some("about:blank".to_string());
    assert_eq!(
        from_url(&g, "http://example.com/", &init).err(),
        Some(TypeError::ReferrerInvalidOrigin)
    );
}

#[test]
fn referrer_unparsable_fails() {
    let g = global();
    let mut init = RequestInit::empty();
    init.referrer = Some("http://[::1".to_string());
    assert_eq!(
        from_url(&g, "http://example.com/", &init).err(),
        Some(TypeError::ReferrerNotParsed)
    );
}

#[test]
fn resolve_referrer_on_given_facts() {
    let g = global();
    assert!(matches!(resolve_referrer(&String::new(), None), Ok(Referrer::NoReferrer)));
    assert_eq!(
        resolve_referrer(&"x".to_string(), None).err(),
        Some(TypeError::ReferrerNotParsed)
    );
    let facts = g.resolve("about:client");
    assert!(matches!(resolve_referrer(&"about:client".to_string(), facts), Ok(Referrer::Client)));
}

#[test]
fn consumption_is_one_way() {
    let g = global();
    let mut init = with_method("PUT");
    init.body = Some(Some(BodyInit::Bytes(vec![1, 2, 3])));
    let mut r = from_url(&g, "http://example.com/", &init).unwrap();
    assert!(!r.BodyUsed());
    assert_eq!(r.get_mime_type(), Vec::<u8>::new());
    assert_eq!(r.consume_body(), Ok(vec![1, 2, 3]));
    assert!(r.BodyUsed());
    assert_eq!(r.consume_body(), Ok(vec![]));
    assert!(r.BodyUsed());
}

#[test]
fn take_body_marks_used_only_when_present() {
    let g = global();
    let mut r = from_url(&g, "http://example.com/", &RequestInit::empty()).unwrap();
    assert_eq!(r.take_body(), None);
    assert!(!r.BodyUsed());
    let mut init = with_method("POST");
    init.body = text_body("ab");
    let mut r = from_url(&g, "http://example.com/", &init).unwrap();
    assert_eq!(r.take_body(), Some(b"ab".to_vec()));
    assert!(r.BodyUsed());
    assert_eq!(r.take_body(), None);
}

#[test]
fn disturbed_input_request_fails() {
    let g = global();
    let mut init = with_method("POST");
    init.body = text_body("once");
    let mut used = from_url(&g, "http://example.com/", &init).unwrap();
    used.consume_body().unwrap();
    assert_eq!(
        Request::Constructor(&g, RequestInfo::Request(&used), &RequestInit::empty()).err(),
        Some(TypeError::InputDisturbedOrLocked)
    );
    let mut init = RequestInit::empty();
    init.mode = Some(Mode::SameOrigin);
    assert_eq!(
        Request::Constructor(&g, RequestInfo::Request(&used), &init).err(),
        Some(TypeError::InputDisturbedOrLocked)
    );
}

#[test]
fn explicit_content_type_is_not_overwritten() {
    let g = global();
    let mut init = with_method("POST");
    init.headers = Some(HeadersInit::Record(vec![(
        b"Content-Type".to_vec(),
        b"text/plain".to_vec(),
    )]));
    init.body = text_body("hi");
    let r = from_url(&g, "http://example.com/", &init).unwrap();
    assert_eq!(
        r.Headers().entries(),
        vec![(b"content-type".to_vec(), b"text/plain".to_vec())]
    );
    assert_eq!(r.get_mime_type(), b"text/plain".to_vec());
}

#[test]
fn input_request_is_carried_over() {
    let g = global();
    let mut init = with_method("POST");
    init.body = text_body("payload");
    init.mode = Some(Mode::SameOrigin);
    init.credentials = Some(CredentialsMode::Include);
    init.headers = Some(HeadersInit::Pairs(vec![vec![b"X-K".to_vec(), b"v".to_vec()]]));
    let first = from_url(&g, "http://example.com/first", &init).unwrap();
    let mut second =
        Request::Constructor(&g, RequestInfo::Request(&first), &RequestInit::empty()).unwrap();
    assert_eq!(second.Url(), "http://example.com/first");
    assert_eq!(second.Method(), "POST");
    assert_eq!(second.Mode(), Mode::SameOrigin);
    assert_eq!(second.Credentials(), CredentialsMode::Include);
    assert_eq!(second.Headers().entries(), first.Headers().entries());
    assert_eq!(second.consume_body(), Ok(b"payload".to_vec()));
    assert!(!first.BodyUsed());
}

#[test]
fn options_override_input_request() {
    let g = global();
    let first = from_url(&g, "http://example.com/first", &RequestInit::empty()).unwrap();
    let mut init = RequestInit::empty();
    init.headers = Some(HeadersInit::Record(vec![(b"X-New".to_vec(), b"1".to_vec())]));
    init.redirect = Some(RedirectMode::Manual);
    init.referrer_policy = Some(ReferrerPolicy::Origin);
    init.integrity = Some("sha256-abc".to_string());
    let r = Request::Constructor(&g, RequestInfo::Request(&first), &init).unwrap();
    assert_eq!(r.Redirect(), RedirectMode::Manual);
    assert_eq!(r.ReferrerPolicy(), Some(ReferrerPolicy::Origin));
    assert_eq!(r.Integrity(), "sha256-abc");
    assert_eq!(r.Headers().entries(), vec![(b"x-new".to_vec(), b"1".to_vec())]);
}

#[test]
fn window_option_rules() {
    let g = global();
    let mut init = RequestInit::empty();
    init.window = WindowInit::Value;
    assert_eq!(
        from_url(&g, "http://example.com/", &init).err(),
        Some(TypeError::WindowNotNull)
    );
    let mut init = RequestInit::empty();
    init.window = WindowInit::Null;
    let r = from_url(&g, "http://example.com/", &init).unwrap();
    assert_eq!(r.window(), Window::NoWindow);
}

#[test]
fn navigate_mode_option_fails() {
    let g = global();
    let mut init = RequestInit::empty();
    init.mode = Some(Mode::Navigate);
    assert_eq!(
        from_url(&g, "http://example.com/", &init).err(),
        Some(TypeError::ModeNavigate)
    );
}

#[test]
fn no_cors_rules() {
    let g = global();
    let mut init = with_method("PUT");
    init.mode = Some(Mode::NoCors);
    assert_eq!(
        from_url(&g, "http://example.com/", &init).err(),
        Some(TypeError::NoCorsMethodNotSafelisted)
    );
    let mut init = RequestInit::empty();
    init.mode = Some(Mode::NoCors);
    init.integrity = Some("sha256-x".to_string());
    assert_eq!(
        from_url(&g, "http://example.com/", &init).err(),
        Some(TypeError::NoCorsIntegrityNotEmpty)
    );
    let mut init = RequestInit::empty();
    init.mode = Some(Mode::NoCors);
    init.headers = Some(HeadersInit::Record(vec![
        (b"X-Custom".to_vec(), b"1".to_vec()),
        (b"Accept".to_vec(), b"*/*".to_vec()),
    ]));
    let r = from_url(&g, "http://example.com/", &init).unwrap();
    assert_eq!(r.Headers().get_guard(), Guard::RequestNoCors);
    assert_eq!(r.Headers().entries(), vec![(b"accept".to_vec(), b"*/*".to_vec())]);
}

#[test]
fn header_errors_propagate() {
    let g = global();
    let mut init = RequestInit::empty();
    init.headers = Some(HeadersInit::Record(vec![(b"bad name".to_vec(), b"1".to_vec())]));
    assert_eq!(
        from_url(&g, "http://example.com/", &init).err(),
        Some(TypeError::Header(HeaderError::InvalidName))
    );
    let mut init = RequestInit::empty();
    init.headers = Some(HeadersInit::Pairs(vec![vec![b"a".to_vec(), b"b".to_vec(), b"c".to_vec()]]));
    assert_eq!(
        from_url(&g, "http://example.com/", &init).err(),
        Some(TypeError::Header(HeaderError::MalformedPair))
    );
    let mut init = with_method("POST");
    init.body = Some(Some(BodyInit::Blob(vec![1], "text/x\nbad".to_string())));
    assert_eq!(
        from_url(&g, "http://example.com/", &init).err(),
        Some(TypeError::Header(HeaderError::InvalidValue))
    );
}

#[test]
fn body_kinds_set_content_type() {
    let g = global();
    let mut init = with_method("POST");
    init.body = Some(Some(BodyInit::UrlSearchParams("a=1&b=2".to_string())));
    let r = from_url(&g, "http://example.com/", &init).unwrap();
    assert_eq!(
        r.get_mime_type(),
        b"application/x-www-form-urlencoded;charset=UTF-8".to_vec()
    );
    let mut init = with_method("POST");
    init.body = Some(Some(BodyInit::Blob(vec![9], "image/png".to_string())));
    let mut r = from_url(&g, "http://example.com/", &init).unwrap();
    assert_eq!(r.get_mime_type(), b"image/png".to_vec());
    assert_eq!(r.consume_body(), Ok(vec![9]));
    let mut init = with_method("POST");
    init.body = Some(Some(BodyInit::Blob(vec![9], String::new())));
    let r = from_url(&g, "http://example.com/", &init).unwrap();
    assert!(r.Headers().entries().is_empty());
}

#[test]
fn new_request_has_network_defaults() {
    let g = global();
    let url = url::Url::parse("https://example.org/x").unwrap();
    let r = Request::new(&g, url, true);
    assert_eq!(r.Url(), "https://example.org/x");
    assert_eq!(r.Mode(), Mode::NoCors);
    assert_eq!(r.Headers().get_guard(), Guard::Unguarded);
    assert!(!r.unsafe_request());
}

#[test]
fn global_reads_url_facts() {
    let g = global();
    assert_eq!(g.origin_text(), "http://example.com");
    assert_eq!(g.pipeline_id(), 7);
    let f = g.resolve("../x/y?z#f").unwrap();
    assert_eq!(f.href, "http://example.com/x/y?z#f");
    assert_eq!(f.scheme, "http");
    assert_eq!(f.path, "/x/y");
    assert!(!f.cannot_be_a_base);
    assert!(f.same_origin);
    assert_eq!(f.username, "");
    assert!(!f.has_password);
    let f = g.resolve("https://u:p@example.com/").unwrap();
    assert_eq!(f.username, "u");
    assert!(f.has_password);
    assert!(!f.same_origin);
    let f = g.resolve("about:client").unwrap();
    assert!(f.cannot_be_a_base);
    assert_eq!(f.scheme, "about");
    assert_eq!(f.path, "client");
    assert!(g.resolve("http://[").is_none());
    assert!(Global::parse("not a url", 1).is_none());
}

#[test]
fn errors_carry_a_reason() {
    assert_eq!(TypeError::ForbiddenMethod.message(), "Method is forbidden");
    assert_eq!(TypeError::UrlIncludesCredentials.message(), "Url includes credentials");
    assert_eq!(
        TypeError::Header(HeaderError::Immutable).message(),
        "A header was refused"
    );
}

#[test]
fn inherited_body_with_get_fails() {
    let g = global();
    let mut init = with_method("POST");
    init.body = text_body("kept");
    let first = from_url(&g, "http://example.com/", &init).unwrap();
    assert_eq!(
        Request::Constructor(&g, RequestInfo::Request(&first), &with_method("GET")).err(),
        Some(TypeError::BodyWithGetOrHead)
    );
}

#[test]
fn unparsable_content_type_header_gives_empty_mime_type() {
    let g = global();
    let mut init = RequestInit::empty();
    init.headers = Some(HeadersInit::Record(vec![(b"Content-Type".to_vec(), b"x".to_vec())]));
    let r = from_url(&g, "http://example.com/", &init).unwrap();
    assert_eq!(r.Headers().entries(), vec![(b"content-type".to_vec(), b"x".to_vec())]);
    assert_eq!(r.get_mime_type(), Vec::<u8>::new());
}

#[test]
fn global_from_url_value() {
    let base = url::Url::parse("https://example.org:8443/a/b").unwrap();
    let g = Global::new(&base, 3);
    assert_eq!(g.base_url(), "https://example.org:8443/a/b");
    assert_eq!(g.origin_text(), "https://example.org:8443");
    assert_eq!(g.pipeline_id(), 3);
    let f = g.resolve("c").unwrap();
    assert_eq!(f.href, "https://example.org:8443/a/c");
    assert!(f.same_origin);
    let data = g.resolve("data:text/plain,hi").unwrap();
    assert!(data.cannot_be_a_base);
    assert!(!data.same_origin);
    assert_eq!(global().base_url(), "http://example.com/dir/page.html");
}
