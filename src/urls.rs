//! The URL facts that request construction reads, taken from the `url` crate.
use vstd::prelude::*;

verus! {

#[verifier::external_type_specification]
#[verifier::external_body]
pub struct ExUrl(url::Url);

/// The serialization of `s` parsed as an absolute URL; `None` where it does
/// not parse.
pub uninterp spec fn parsed_href(s: Seq<char>) -> Option<Seq<char>>;

/// The serialization of `input` resolved against the URL `base`; `None`
/// where it does not parse.
pub uninterp spec fn resolved_href(base: Seq<char>, input: Seq<char>) -> Option<Seq<char>>;

/// The username of the URL `href` (empty where there is none).
pub uninterp spec fn username_of(href: Seq<char>) -> Seq<char>;

/// Whether the URL `href` carries a password.
pub uninterp spec fn has_password_of(href: Seq<char>) -> bool;

/// The scheme of the URL `href`, without the `:`.
pub uninterp spec fn scheme_of(href: Seq<char>) -> Seq<char>;

/// The path of the URL `href`.
pub uninterp spec fn path_of(href: Seq<char>) -> Seq<char>;

/// Whether the URL `href` has an opaque (non-hierarchical) path.
pub uninterp spec fn cannot_be_a_base_of(href: Seq<char>) -> bool;

/// The ASCII serialization of the origin of the URL `href`.
pub uninterp spec fn origin_text_of(href: Seq<char>) -> Seq<char>;

/// Whether the URLs `a` and `b` have the same origin (an opaque origin is
/// the same as no other).
pub uninterp spec fn same_origin_of(a: Seq<char>, b: Seq<char>) -> bool;

/// Relies on `url::Url::parse`, and `url::Url::as_str` for its serialization.
#[verifier::external_body]
fn parse_href(input: &str) -> (r: Option<String>)
    ensures
        r is Some <==> parsed_href(input@) is Some,
        r matches Some(h) ==> parsed_href(input@) == Some(h@),
{
    match url::Url::parse(input) {
        Ok(u) => Some(u.as_str().to_string()),
        Err(_) => None,
    }
}

/// Relies on `url::Url::join` (the base given by its serialization), and
/// `url::Url::as_str` for the result's serialization.
#[verifier::external_body]
fn join_href(base: &str, input: &str) -> (r: Option<String>)
    ensures
        r is Some <==> resolved_href(base@, input@) is Some,
        r matches Some(h) ==> resolved_href(base@, input@) == Some(h@),
{
    match url::Url::parse(base) {
        Ok(b) => match b.join(input) {
            Ok(u) => Some(u.as_str().to_string()),
            Err(_) => None,
        },
        Err(_) => None,
    }
}

/// Relies on `url::Url::username`.
#[verifier::external_body]
fn href_username(href: &str) -> (r: String)
    ensures
        r@ == username_of(href@),
{
    match url::Url::parse(href) {
        Ok(u) => u.username().to_string(),
        Err(_) => String::new(),
    }
}

/// Relies on `url::Url::password`.
#[verifier::external_body]
fn href_has_password(href: &str) -> (r: bool)
    ensures
        r == has_password_of(href@),
{
    match url::Url::parse(href) {
        Ok(u) => u.password().is_some(),
        Err(_) => false,
    }
}

/// Relies on `url::Url::scheme`.
#[verifier::external_body]
fn href_scheme(href: &str) -> (r: String)
    ensures
        r@ == scheme_of(href@),
{
    match url::Url::parse(href) {
        Ok(u) => u.scheme().to_string(),
        Err(_) => String::new(),
    }
}

/// Relies on `url::Url::path`.
#[verifier::external_body]
fn href_path(href: &str) -> (r: String)
    ensures
        r@ == path_of(href@),
{
    match url::Url::parse(href) {
        Ok(u) => u.path().to_string(),
        Err(_) => String::new(),
    }
}

/// Relies on `url::Url::cannot_be_a_base`.
#[verifier::external_body]
fn href_cannot_be_a_base(href: &str) -> (r: bool)
    ensures
        r == cannot_be_a_base_of(href@),
{
    match url::Url::parse(href) {
        Ok(u) => u.cannot_be_a_base(),
        Err(_) => false,
    }
}

/// Relies on `url::Url::origin` and `url::Origin::ascii_serialization`.
#[verifier::external_body]
fn href_origin_text(href: &str) -> (r: String)
    ensures
        r@ == origin_text_of(href@),
{
    match url::Url::parse(href) {
        Ok(u) => u.origin().ascii_serialization(),
        Err(_) => String::new(),
    }
}

/// Relies on `url::Url::origin` and `url::Origin`'s `==`.
#[verifier::external_body]
fn hrefs_same_origin(a: &str, b: &str) -> (r: bool)
    ensures
        r == same_origin_of(a@, b@),
{
    match (url::Url::parse(a), url::Url::parse(b)) {
        (Ok(x), Ok(y)) => x.origin() == y.origin(),
        _ => false,
    }
}

/// Relies on `url::Url::as_str`: the serialization of the URL.
#[verifier::external_body]
pub(crate) fn url_href(u: &url::Url) -> (r: String) {
    u.as_str().to_string()
}

/// What request construction reads of a resolved URL.
#[derive(Debug)]
pub struct UrlFacts {
    /// The serialization of the URL.
    pub href: String,
    pub username: String,
    pub has_password: bool,
    pub scheme: String,
    pub path: String,
    pub cannot_be_a_base: bool,
    /// Whether the URL has the same origin as the environment.
    pub same_origin: bool,
}

/// The facts of a resolved URL as mathematical values.
pub struct UrlFactsView {
    pub href: Seq<char>,
    pub username: Seq<char>,
    pub has_password: bool,
    pub scheme: Seq<char>,
    pub path: Seq<char>,
    pub cannot_be_a_base: bool,
    pub same_origin: bool,
}

impl View for UrlFacts {
    type V = UrlFactsView;

    open spec fn view(&self) -> UrlFactsView {
        UrlFactsView {
            href: self.href@,
            username: self.username@,
            has_password: self.has_password,
            scheme: self.scheme@,
            path: self.path@,
            cannot_be_a_base: self.cannot_be_a_base,
            same_origin: self.same_origin,
        }
    }
}

pub open spec fn opt_facts(f: Option<UrlFacts>) -> Option<UrlFactsView> {
    match f {
        Some(f) => Some(f@),
        None => None,
    }
}

/// The environment that a request is constructed in: its base URL, its
/// origin and the pipeline it belongs to.
pub struct Global {
    base_text: String,
    origin_text: String,
    pipeline_id: u64,
}

impl Global {
    pub closed spec fn spec_base(&self) -> Seq<char> {
        self.base_text@
    }

    pub closed spec fn spec_pipeline_id(&self) -> u64 {
        self.pipeline_id
    }

    pub closed spec fn spec_origin_text(&self) -> Seq<char> {
        self.origin_text@
    }

    /// What resolving `input` against the base URL gives.
    pub open spec fn resolve_spec(&self, input: Seq<char>) -> Option<UrlFactsView> {
        match resolved_href(self.spec_base(), input) {
            Some(h) => Some(
                UrlFactsView {
                    href: h,
                    username: username_of(h),
                    has_password: has_password_of(h),
                    scheme: scheme_of(h),
                    path: path_of(h),
                    cannot_be_a_base: cannot_be_a_base_of(h),
                    same_origin: same_origin_of(h, self.spec_base()),
                },
            ),
            None => None,
        }
    }

    /// An environment whose base URL is `base`, or `None` where `base` is no
    /// absolute URL.
    pub fn parse(base: &str, pipeline_id: u64) -> (r: Option<Global>)
        ensures
            r is Some <==> parsed_href(base@) is Some,
            r matches Some(g) ==> parsed_href(base@) == Some(g.spec_base()) && g.spec_origin_text()
                == origin_text_of(g.spec_base()) && g.spec_pipeline_id() == pipeline_id,
    {
        match parse_href(base) {
            Some(h) => {
                let origin_text = href_origin_text(h.as_str());
                Some(Global { base_text: h, origin_text, pipeline_id })
            },
            None => None,
        }
    }

    /// An environment whose base URL is `base_url`.
    pub fn new(base_url: &url::Url, pipeline_id: u64) -> (r: Global)
        ensures
            r.spec_origin_text() == origin_text_of(r.spec_base()),
            r.spec_pipeline_id() == pipeline_id,
    {
        let base_text = url_href(base_url);
        let origin_text = href_origin_text(base_text.as_str());
        Global { base_text, origin_text, pipeline_id }
    }

    pub fn pipeline_id(&self) -> (r: u64)
        ensures
            r == self.spec_pipeline_id(),
    {
        self.pipeline_id
    }

    /// The base URL, serialized.
    pub fn base_url(&self) -> (r: String)
        ensures
            r@ == self.spec_base(),
    {
        self.base_text.clone()
    }

    /// The ASCII serialization of the environment's origin.
    pub fn origin_text(&self) -> (r: String)
        ensures
            r@ == self.spec_origin_text(),
    {
        self.origin_text.clone()
    }

    /// Resolves `input` against the base URL and reads what construction
    /// needs of the result; `None` where it does not parse.
    pub fn resolve(&self, input: &str) -> (r: Option<UrlFacts>)
        ensures
            opt_facts(r) == self.resolve_spec(input@),
    {
        match join_href(self.base_text.as_str(), input) {
            Some(h) => {
                let f = UrlFacts {
                    username: href_username(h.as_str()),
                    has_password: href_has_password(h.as_str()),
                    scheme: href_scheme(h.as_str()),
                    path: href_path(h.as_str()),
                    cannot_be_a_base: href_cannot_be_a_base(h.as_str()),
                    same_origin: hrefs_same_origin(h.as_str(), self.base_text.as_str()),
                    href: h,
                };
                Some(f)
            },
            None => None,
        }
    }
}

} // verus!
