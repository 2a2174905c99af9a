//! The request descriptor: its construction from a URL or from another
//! request, its clone and the consumption of its body.
use vstd::prelude::*;
use crate::body::{BodyInit, body_bytes, body_content_type};
use crate::headers::{
    Entries, Guard, HeaderError, HeaderList, HeadersInit, append_spec, content_type_bytes,
    content_type_name, fill_spec, first_value, init_entries, lower,
};
use crate::method::{
    Method, MethodError, MethodView, method_for_token, parse_method_token,
    spec_is_cors_safelisted_method, spec_is_forbidden_method, spec_is_method, is_cors_safelisted_method,
};
use crate::urls::{Global, UrlFacts, UrlFactsView, opt_facts};

verus! {

#[derive(Debug, Clone, Copy, PartialEq, Eq, Structural)]
pub enum Mode {
    Navigate,
    SameOrigin,
    NoCors,
    Cors,
}

#[derive(Debug, Clone, Copy, PartialEq, Eq, Structural)]
pub enum CredentialsMode {
    Omit,
    SameOrigin,
    Include,
}

#[derive(Debug, Clone, Copy, PartialEq, Eq, Structural)]
pub enum CacheMode {
    Default,
    NoStore,
    Reload,
    NoCache,
    ForceCache,
    OnlyIfCached,
}

#[derive(Debug, Clone, Copy, PartialEq, Eq, Structural)]
pub enum RedirectMode {
    Follow,
    Error,
    Manual,
}

#[derive(Debug, Clone, Copy, PartialEq, Eq, Structural)]
pub enum ReferrerPolicy {
    NoReferrer,
    NoReferrerWhenDowngrade,
    Origin,
    SameOrigin,
    OriginWhenCrossOrigin,
    UnsafeUrl,
}

#[derive(Debug, Clone, Copy, PartialEq, Eq, Structural)]
pub enum Destination {
    Unspecified,
    Document,
    Embed,
    Font,
    Image,
    Manifest,
    Media,
    Object,
    Report,
    Script,
    ServiceWorker,
    SharedWorker,
    Style,
    Worker,
    Xslt,
}

#[derive(Debug, Clone, Copy, PartialEq, Eq, Structural)]
pub enum RequestType {
    Unspecified,
    Audio,
    Font,
    Image,
    Script,
    Style,
    Track,
    Video,
}

#[derive(Debug, Clone, Copy, PartialEq, Eq, Structural)]
pub enum Window {
    Client,
    NoWindow,
}

/// The `window` member of the options: absent, null, or some other value.
#[derive(Debug, Clone, Copy, PartialEq, Eq, Structural)]
pub enum WindowInit {
    Absent,
    Null,
    Value,
}

/// Who the request is made on behalf of.
#[derive(Debug)]
pub enum RequestOrigin {
    Client,
    /// An explicit origin, by its ASCII serialization.
    Origin(String),
}

#[derive(Debug)]
pub enum Referrer {
    NoReferrer,
    Client,
    ReferrerUrl(String),
}

pub enum OriginView {
    Client,
    Origin(Seq<char>),
}

pub enum ReferrerView {
    NoReferrer,
    Client,
    ReferrerUrl(Seq<char>),
}

impl View for RequestOrigin {
    type V = OriginView;

    open spec fn view(&self) -> OriginView {
        match self {
            RequestOrigin::Client => OriginView::Client,
            RequestOrigin::Origin(s) => OriginView::Origin(s@),
        }
    }
}

impl View for Referrer {
    type V = ReferrerView;

    open spec fn view(&self) -> ReferrerView {
        match self {
            Referrer::NoReferrer => ReferrerView::NoReferrer,
            Referrer::Client => ReferrerView::Client,
            Referrer::ReferrerUrl(s) => ReferrerView::ReferrerUrl(s@),
        }
    }
}

impl RequestOrigin {
    pub fn copy(&self) -> (r: RequestOrigin)
        ensures
            r@ == self@,
    {
        match self {
            RequestOrigin::Client => RequestOrigin::Client,
            RequestOrigin::Origin(s) => RequestOrigin::Origin(s.clone()),
        }
    }
}

impl Referrer {
    pub fn copy(&self) -> (r: Referrer)
        ensures
            r@ == self@,
    {
        match self {
            Referrer::NoReferrer => Referrer::NoReferrer,
            Referrer::Client => Referrer::Client,
            Referrer::ReferrerUrl(s) => Referrer::ReferrerUrl(s.clone()),
        }
    }
}

/// Why a request could not be constructed, cloned or read.
#[derive(Debug, Clone, Copy, PartialEq, Eq, Structural)]
pub enum TypeError {
    UrlNotParsed,
    UrlIncludesCredentials,
    InputDisturbedOrLocked,
    WindowNotNull,
    NavigateWithInit,
    ReferrerNotParsed,
    ReferrerInvalidOrigin,
    ModeNavigate,
    OnlyIfCachedNotSameOrigin,
    NotAMethod,
    ForbiddenMethod,
    NoCorsMethodNotSafelisted,
    NoCorsIntegrityNotEmpty,
    Header(HeaderError),
    BodyWithGetOrHead,
    Locked,
    Disturbed,
}

/// The human-readable reason that goes with an error.
pub open spec fn reason_text(e: TypeError) -> Seq<char> {
    match e {
        TypeError::UrlNotParsed => "Url could not be parsed"@,
        TypeError::UrlIncludesCredentials => "Url includes credentials"@,
        TypeError::InputDisturbedOrLocked => "Input is disturbed or locked"@,
        TypeError::WindowNotNull => "Window is present and is not null"@,
        TypeError::NavigateWithInit => "Init is present and request mode is 'navigate'"@,
        TypeError::ReferrerNotParsed => "Failed to parse referrer url"@,
        TypeError::ReferrerInvalidOrigin => "RequestInit's referrer has invalid origin"@,
        TypeError::ModeNavigate => "Request mode is Navigate"@,
        TypeError::OnlyIfCachedNotSameOrigin => "Cache is 'only-if-cached' and mode is not 'same-origin'"@,
        TypeError::NotAMethod => "Method is not a method"@,
        TypeError::ForbiddenMethod => "Method is forbidden"@,
        TypeError::NoCorsMethodNotSafelisted => "The mode is 'no-cors' but the method is not a cors-safelisted method"@,
        TypeError::NoCorsIntegrityNotEmpty => "Integrity metadata is not an empty string"@,
        TypeError::Header(_) => "A header was refused"@,
        TypeError::BodyWithGetOrHead => "Init's body is non-null, and request method is GET or HEAD"@,
        TypeError::Locked => "Request is locked"@,
        TypeError::Disturbed => "Request is disturbed"@,
    }
}

impl TypeError {
    /// The reason for the error, in words.
    pub fn message(&self) -> (r: String)
        ensures
            r@ == reason_text(*self),
    {
        match self {
            TypeError::UrlNotParsed => String::from_str("Url could not be parsed"),
            TypeError::UrlIncludesCredentials => String::from_str("Url includes credentials"),
            TypeError::InputDisturbedOrLocked => String::from_str("Input is disturbed or locked"),
            TypeError::WindowNotNull => String::from_str("Window is present and is not null"),
            TypeError::NavigateWithInit => String::from_str("Init is present and request mode is 'navigate'"),
            TypeError::ReferrerNotParsed => String::from_str("Failed to parse referrer url"),
            TypeError::ReferrerInvalidOrigin => String::from_str("RequestInit's referrer has invalid origin"),
            TypeError::ModeNavigate => String::from_str("Request mode is Navigate"),
            TypeError::OnlyIfCachedNotSameOrigin => String::from_str("Cache is 'only-if-cached' and mode is not 'same-origin'"),
            TypeError::NotAMethod => String::from_str("Method is not a method"),
            TypeError::ForbiddenMethod => String::from_str("Method is forbidden"),
            TypeError::NoCorsMethodNotSafelisted => String::from_str("The mode is 'no-cors' but the method is not a cors-safelisted method"),
            TypeError::NoCorsIntegrityNotEmpty => String::from_str("Integrity metadata is not an empty string"),
            TypeError::Header(_) => String::from_str("A header was refused"),
            TypeError::BodyWithGetOrHead => String::from_str("Init's body is non-null, and request method is GET or HEAD"),
            TypeError::Locked => String::from_str("Request is locked"),
            TypeError::Disturbed => String::from_str("Request is disturbed"),
        }
    }
}

/// The state of a request as a mathematical value.
pub struct RequestView {
    pub url_list: Seq<Seq<char>>,
    pub method: MethodView,
    pub headers: Entries,
    pub guard: Guard,
    pub body: Option<Seq<u8>>,
    pub body_used: bool,
    pub mime_type: Seq<u8>,
    pub origin: OriginView,
    pub window: Window,
    pub referrer: ReferrerView,
    pub referrer_policy: Option<ReferrerPolicy>,
    pub mode: Mode,
    pub credentials_mode: CredentialsMode,
    pub cache_mode: CacheMode,
    pub redirect_mode: RedirectMode,
    pub integrity_metadata: Seq<char>,
    pub omit_origin_header: bool,
    pub unsafe_request: bool,
    pub same_origin_data: bool,
    pub pipeline_id: Option<u64>,
    pub is_service_worker_global_scope: bool,
    pub destination: Destination,
    pub request_type: RequestType,
}

/// A request: the descriptor handed to the network layer, with the state
/// of its body.
pub struct Request {
    url_list: Vec<String>,
    method: Method,
    headers: HeaderList,
    body: Option<Vec<u8>>,
    body_used: bool,
    mime_type: Vec<u8>,
    origin: RequestOrigin,
    window: Window,
    referrer: Referrer,
    referrer_policy: Option<ReferrerPolicy>,
    mode: Mode,
    credentials_mode: CredentialsMode,
    cache_mode: CacheMode,
    redirect_mode: RedirectMode,
    integrity_metadata: String,
    omit_origin_header: bool,
    unsafe_request: bool,
    same_origin_data: bool,
    pipeline_id: Option<u64>,
    is_service_worker_global_scope: bool,
    destination: Destination,
    request_type: RequestType,
}

pub open spec fn opt_bytes_view(b: Option<Vec<u8>>) -> Option<Seq<u8>> {
    match b {
        Some(v) => Some(v@),
        None => None,
    }
}

impl Request {
    #[verifier::type_invariant]
    spec fn has_current_url(&self) -> bool {
        self.url_list@.len() >= 1
    }
}

impl View for Request {
    type V = RequestView;

    closed spec fn view(&self) -> RequestView {
        RequestView {
            url_list: self.url_list@.map_values(|s: String| s@),
            method: self.method@,
            headers: self.headers.entries_view(),
            guard: self.headers.spec_guard(),
            body: opt_bytes_view(self.body),
            body_used: self.body_used,
            mime_type: self.mime_type@,
            origin: self.origin@,
            window: self.window,
            referrer: self.referrer@,
            referrer_policy: self.referrer_policy,
            mode: self.mode,
            credentials_mode: self.credentials_mode,
            cache_mode: self.cache_mode,
            redirect_mode: self.redirect_mode,
            integrity_metadata: self.integrity_metadata@,
            omit_origin_header: self.omit_origin_header,
            unsafe_request: self.unsafe_request,
            same_origin_data: self.same_origin_data,
            pipeline_id: self.pipeline_id,
            is_service_worker_global_scope: self.is_service_worker_global_scope,
            destination: self.destination,
            request_type: self.request_type,
        }
    }
}

/// A request's body has been read: it is disturbed.
pub open spec fn is_disturbed(v: RequestView) -> bool {
    v.body_used
}

/// The request that the network layer makes of a URL in an environment,
/// before anything is set on it.
pub open spec fn fresh_request(g: Global, href: Seq<char>, sw: bool) -> RequestView {
    RequestView {
        url_list: seq![href],
        method: MethodView::Get,
        headers: Seq::empty(),
        guard: Guard::Unguarded,
        body: None,
        body_used: false,
        mime_type: Seq::empty(),
        origin: OriginView::Origin(g.spec_origin_text()),
        window: Window::Client,
        referrer: ReferrerView::Client,
        referrer_policy: None,
        mode: Mode::NoCors,
        credentials_mode: CredentialsMode::Omit,
        cache_mode: CacheMode::Default,
        redirect_mode: RedirectMode::Follow,
        integrity_metadata: Seq::empty(),
        omit_origin_header: false,
        unsafe_request: false,
        same_origin_data: false,
        pipeline_id: Some(g.spec_pipeline_id()),
        is_service_worker_global_scope: sw,
        destination: Destination::Unspecified,
        request_type: RequestType::Unspecified,
    }
}

/// What reading the body leaves behind: no body, and the body marked used.
pub open spec fn after_consume(v: RequestView) -> RequestView {
    RequestView { body: None, body_used: true, ..v }
}

/// What reading the body yields: its bytes, or nothing where there is none.
pub open spec fn consumed_bytes(v: RequestView) -> Seq<u8> {
    match v.body {
        Some(b) => b,
        None => Seq::empty(),
    }
}

fn copy_strings(v: &Vec<String>) -> (r: Vec<String>)
    ensures
        r@.map_values(|s: String| s@) == v@.map_values(|s: String| s@),
        r@.len() == v@.len(),
{
    let mut out: Vec<String> = Vec::new();
    let mut i: usize = 0;
    while i < v.len()
        invariant
            i <= v@.len(),
            out@.map_values(|s: String| s@) == v@.take(i as int).map_values(|s: String| s@),
        decreases v@.len() - i,
    {
        let s = v[i].clone();
        let ghost before = out@;
        out.push(s);
        assert(out@.map_values(|s: String| s@) =~= before.map_values(|s: String| s@).push(s@));
        assert(v@.take(i + 1) =~= v@.take(i as int).push(v@[i as int]));
        i = i + 1;
    }
    assert(v@.take(i as int) =~= v@);
    out
}

fn copy_opt_bytes(b: &Option<Vec<u8>>) -> (r: Option<Vec<u8>>)
    ensures
        opt_bytes_view(r) == opt_bytes_view(*b),
{
    match b {
        Some(v) => Some(crate::headers::copy_bytes(v.as_slice())),
        None => None,
    }
}

impl Request {
    /// A request for `url` in the environment `global`, with the network
    /// layer's defaults.
    pub fn new(global: &Global, url: url::Url, is_service_worker_global_scope: bool) -> (r: Request)
        ensures
            r@.url_list.len() == 1,
            r@ == (RequestView { url_list: r@.url_list, ..fresh_request(
                *global,
                r@.url_list[0],
                is_service_worker_global_scope,
            ) }),
    {
        let href = crate::urls::url_href(&url);
        let r = Request::fresh(global, href, is_service_worker_global_scope);
        r
    }

    fn fresh(global: &Global, href: String, sw: bool) -> (r: Request)
        ensures
            r@ == fresh_request(*global, href@, sw),
    {
        let mut url_list: Vec<String> = Vec::new();
        let ghost h = href@;
        url_list.push(href);
        let r = Request {
            url_list,
            method: Method::Get,
            headers: HeaderList::new(Guard::Unguarded),
            body: None,
            body_used: false,
            mime_type: Vec::new(),
            origin: RequestOrigin::Origin(global.origin_text()),
            window: Window::Client,
            referrer: Referrer::Client,
            referrer_policy: None,
            mode: Mode::NoCors,
            credentials_mode: CredentialsMode::Omit,
            cache_mode: CacheMode::Default,
            redirect_mode: RedirectMode::Follow,
            integrity_metadata: String::new(),
            omit_origin_header: false,
            unsafe_request: false,
            same_origin_data: false,
            pipeline_id: Some(global.pipeline_id()),
            is_service_worker_global_scope: sw,
            destination: Destination::Unspecified,
            request_type: RequestType::Unspecified,
        };
        assert(r@.url_list =~= seq![h]);
        assert(r@.mime_type =~= Seq::<u8>::empty());
        assert(r@.integrity_metadata =~= Seq::<char>::empty());
        r
    }

    /// A deep copy: every field copied, nothing shared.
    fn copy(&self) -> (r: Request)
        ensures
            r@ == self@,
    {
        proof {
            use_type_invariant(self);
        }
        let r = Request {
            url_list: copy_strings(&self.url_list),
            method: self.method.copy(),
            headers: self.headers.copy(),
            body: copy_opt_bytes(&self.body),
            body_used: self.body_used,
            mime_type: crate::headers::copy_bytes(self.mime_type.as_slice()),
            origin: self.origin.copy(),
            window: self.window,
            referrer: self.referrer.copy(),
            referrer_policy: self.referrer_policy,
            mode: self.mode,
            credentials_mode: self.credentials_mode,
            cache_mode: self.cache_mode,
            redirect_mode: self.redirect_mode,
            integrity_metadata: self.integrity_metadata.clone(),
            omit_origin_header: self.omit_origin_header,
            unsafe_request: self.unsafe_request,
            same_origin_data: self.same_origin_data,
            pipeline_id: self.pipeline_id,
            is_service_worker_global_scope: self.is_service_worker_global_scope,
            destination: self.destination,
            request_type: self.request_type,
        };
        r
    }

    /// Whether the body is being read: streams are not modeled, so never.
    pub fn locked(&self) -> (r: bool)
        ensures
            r == false,
    {
        false
    }

    /// Whether the body has been read.
    pub fn disturbed(&self) -> (r: bool)
        ensures
            r == is_disturbed(self@),
    {
        self.body_used
    }

    /// A copy of the request, which shares no state with it; refused where
    /// the request is locked or disturbed.
    #[allow(non_snake_case)]
    pub fn Clone(&self) -> (r: Result<Request, TypeError>)
        ensures
            is_disturbed(self@) ==> r == Err::<Request, TypeError>(TypeError::Disturbed),
            !is_disturbed(self@) ==> (r matches Ok(c) && c@ == self@),
    {
        if self.locked() {
            return Err(TypeError::Locked);
        }
        if self.disturbed() {
            return Err(TypeError::Disturbed);
        }
        Ok(self.copy())
    }

    /// Takes the body out, leaving none; marks the body used where there
    /// was one.
    pub fn take_body(&mut self) -> (r: Option<Vec<u8>>)
        ensures
            opt_bytes_view(r) == old(self)@.body,
            final(self)@ == (RequestView {
                body: None,
                body_used: old(self)@.body_used || old(self)@.body is Some,
                ..old(self)@
            }),
    {
        proof {
            use_type_invariant(&*self);
        }
        let body = copy_opt_bytes(&self.body);
        self.body = None;
        if body.is_some() {
            self.body_used = true;
        }
        body
    }

    /// Reads the body: yields its bytes, or nothing where it was never set or
    /// has been read already, and marks it used.
    pub fn consume_body(&mut self) -> (r: Result<Vec<u8>, TypeError>)
        ensures
            r matches Ok(b) && b@ == consumed_bytes(old(self)@),
            final(self)@ == after_consume(old(self)@),
    {
        if self.locked() {
            return Err(TypeError::Locked);
        }
        proof {
            use_type_invariant(&*self);
        }
        let body = self.take_body();
        proof {
            use_type_invariant(&*self);
        }
        self.body_used = true;
        match body {
            Some(b) => Ok(b),
            None => Ok(Vec::new()),
        }
    }
}

/// The options that may accompany construction; each member may be absent.
#[derive(Debug)]
pub struct RequestInit {
    /// Absent, present but null (`Some(None)`), or a body value.
    pub body: Option<Option<BodyInit>>,
    pub cache: Option<CacheMode>,
    pub credentials: Option<CredentialsMode>,
    pub headers: Option<HeadersInit>,
    pub integrity: Option<String>,
    /// A method token, as bytes.
    pub method: Option<Vec<u8>>,
    pub mode: Option<Mode>,
    pub redirect: Option<RedirectMode>,
    pub referrer: Option<String>,
    pub referrer_policy: Option<ReferrerPolicy>,
    pub window: WindowInit,
}

impl RequestInit {
    /// Options with every member absent.
    pub fn empty() -> (r: RequestInit)
        ensures
            !has_options(r),
    {
        RequestInit {
            body: None,
            cache: None,
            credentials: None,
            headers: None,
            integrity: None,
            method: None,
            mode: None,
            redirect: None,
            referrer: None,
            referrer_policy: None,
            window: WindowInit::Absent,
        }
    }
}

/// What a request is constructed from: a URL, or an existing request.
pub enum RequestInfo<'a> {
    Url(String),
    Request(&'a Request),
}

/// A URL that carries a username or a password.
pub open spec fn includes_credentials(f: UrlFactsView) -> bool {
    f.username.len() > 0 || f.has_password
}

/// The temporary request that construction starts from, or the error that
/// the input itself gives.
pub open spec fn basis_spec(g: Global, input: RequestInfo, input_url: Option<UrlFactsView>) -> Result<
    RequestView,
    TypeError,
> {
    match input {
        RequestInfo::Url(_) => match input_url {
            None => Err(TypeError::UrlNotParsed),
            Some(f) => if includes_credentials(f) {
                Err(TypeError::UrlIncludesCredentials)
            } else {
                Ok(fresh_request(g, f.href, false))
            },
        },
        RequestInfo::Request(r) => if is_disturbed(r@) {
            Err(TypeError::InputDisturbedOrLocked)
        } else {
            Ok(r@)
        },
    }
}

/// The mode used where the options give none: CORS for a URL.
pub open spec fn fallback_mode(input: RequestInfo) -> Option<Mode> {
    match input {
        RequestInfo::Url(_) => Some(Mode::Cors),
        RequestInfo::Request(_) => None,
    }
}

/// The credentials mode used where the options give none: omit for a URL.
pub open spec fn fallback_credentials(input: RequestInfo) -> Option<CredentialsMode> {
    match input {
        RequestInfo::Url(_) => Some(CredentialsMode::Omit),
        RequestInfo::Request(_) => None,
    }
}

/// Whether any member of the options is present.
pub open spec fn has_options(init: RequestInit) -> bool {
    init.body is Some || init.cache is Some || init.credentials is Some || init.integrity is Some
        || init.headers is Some || init.method is Some || init.mode is Some || init.redirect is Some
        || init.referrer is Some || init.referrer_policy is Some || init.window != WindowInit::Absent
}

pub open spec fn window_of(w: WindowInit) -> Window {
    if w == WindowInit::Absent {
        Window::Client
    } else {
        Window::NoWindow
    }
}

/// The descriptor built from the temporary request `b`: a fresh request for
/// its current URL that takes over its method and policies.
pub open spec fn base_spec(g: Global, b: RequestView, w: WindowInit) -> RequestView {
    RequestView {
        method: b.method,
        window: window_of(w),
        origin: OriginView::Client,
        omit_origin_header: b.omit_origin_header,
        unsafe_request: true,
        same_origin_data: true,
        referrer: b.referrer,
        referrer_policy: b.referrer_policy,
        mode: b.mode,
        credentials_mode: b.credentials_mode,
        cache_mode: b.cache_mode,
        redirect_mode: b.redirect_mode,
        integrity_metadata: b.integrity_metadata,
        ..fresh_request(g, b.url_list.last(), false)
    }
}

/// The referrer that the option `s` gives, where `f` is `s` resolved against
/// the base URL (`None` where it does not parse).
pub open spec fn referrer_spec(s: Seq<char>, f: Option<UrlFactsView>) -> Result<ReferrerView, TypeError> {
    if s.len() == 0 {
        Ok(ReferrerView::NoReferrer)
    } else {
        match f {
            None => Err(TypeError::ReferrerNotParsed),
            Some(f) => if is_about_client(f) {
                Ok(ReferrerView::Client)
            } else if !f.same_origin {
                Err(TypeError::ReferrerInvalidOrigin)
            } else {
                Ok(ReferrerView::ReferrerUrl(f.href))
            },
        }
    }
}

/// The method that the options give, or the error that its token gives.
pub open spec fn method_spec(current: MethodView, m: Option<Vec<u8>>) -> Result<MethodView, TypeError> {
    match m {
        Some(m) => if !spec_is_method(m@) {
            Err(TypeError::NotAMethod)
        } else if spec_is_forbidden_method(m@) {
            Err(TypeError::ForbiddenMethod)
        } else {
            Ok(method_for_token(m@)@)
        },
        None => Ok(current),
    }
}

/// The descriptor once the options' policies and method are applied to `v`:
/// first a reset where any option is present, then each override in turn.
pub open spec fn init_spec(
    v: RequestView,
    fb_mode: Option<Mode>,
    fb_cred: Option<CredentialsMode>,
    init: RequestInit,
    rf: Option<UrlFactsView>,
) -> Result<RequestView, TypeError> {
    if has_options(init) && v.mode == Mode::Navigate {
        Err(TypeError::NavigateWithInit)
    } else {
        let v1 = if has_options(init) {
            RequestView {
                omit_origin_header: false,
                referrer: ReferrerView::Client,
                referrer_policy: None,
                ..v
            }
        } else {
            v
        };
        let rr = match init.referrer {
            Some(s) => referrer_spec(s@, rf),
            None => Ok(v1.referrer),
        };
        let mode_opt = match init.mode {
            Some(m) => Some(m),
            None => fb_mode,
        };
        let mode = match mode_opt {
            Some(m) => m,
            None => v1.mode,
        };
        let cache = match init.cache {
            Some(c) => c,
            None => v1.cache_mode,
        };
        match rr {
            Err(e) => Err(e),
            Ok(referrer) => if mode_opt == Some(Mode::Navigate) {
                Err(TypeError::ModeNavigate)
            } else if cache == CacheMode::OnlyIfCached && mode != Mode::SameOrigin {
                Err(TypeError::OnlyIfCachedNotSameOrigin)
            } else {
                match method_spec(v1.method, init.method) {
                    Err(e) => Err(e),
                    Ok(method) => Ok(
                        RequestView {
                            referrer,
                            referrer_policy: match init.referrer_policy {
                                Some(p) => Some(p),
                                None => v1.referrer_policy,
                            },
                            mode,
                            credentials_mode: match init.credentials {
                                Some(c) => c,
                                None => match fb_cred {
                                    Some(c) => c,
                                    None => v1.credentials_mode,
                                },
                            },
                            cache_mode: cache,
                            redirect_mode: match init.redirect {
                                Some(r) => r,
                                None => v1.redirect_mode,
                            },
                            integrity_metadata: match init.integrity {
                                Some(s) => s@,
                                None => v1.integrity_metadata,
                            },
                            method,
                            ..v1
                        },
                    ),
                }
            },
        }
    }
}

/// The headers that fill the new request: those of the options where given,
/// else those of the input request, else none.
pub open spec fn header_source(input: RequestInfo, init: RequestInit) -> Result<Entries, HeaderError> {
    match init.headers {
        Some(h) => init_entries(h),
        None => match input {
            RequestInfo::Request(r) => Ok(r@.headers),
            RequestInfo::Url(_) => Ok(Seq::empty()),
        },
    }
}

/// The guard of a new request's headers in mode `m`.
pub open spec fn guard_for(m: Mode) -> Guard {
    if m == Mode::NoCors {
        Guard::RequestNoCors
    } else {
        Guard::Request
    }
}

/// The descriptor once its header list is filled, or the error that the
/// mode or the fill gives.
pub open spec fn headers_spec(v: RequestView, input: RequestInfo, init: RequestInit) -> Result<
    RequestView,
    TypeError,
> {
    if v.mode == Mode::NoCors && !spec_is_cors_safelisted_method(v.method) {
        Err(TypeError::NoCorsMethodNotSafelisted)
    } else if v.mode == Mode::NoCors && v.integrity_metadata.len() > 0 {
        Err(TypeError::NoCorsIntegrityNotEmpty)
    } else {
        match header_source(input, init) {
            Err(e) => Err(TypeError::Header(e)),
            Ok(src) => match fill_spec(guard_for(v.mode), Seq::empty(), src) {
                Err(e) => Err(TypeError::Header(e)),
                Ok(e) => Ok(RequestView { headers: e, guard: guard_for(v.mode), ..v }),
            },
        }
    }
}

pub open spec fn input_body(input: RequestInfo) -> Option<Seq<u8>> {
    match input {
        RequestInfo::Request(r) => r@.body,
        RequestInfo::Url(_) => None,
    }
}

pub open spec fn has_content_type(e: Entries) -> bool {
    exists|i: int| 0 <= i < e.len() && (#[trigger] e[i]).0 == lower(content_type_name())
}

/// The MIME type recorded from a header list: its first content type, parsed
/// as a media type; nothing where there is none or it does not parse.
pub open spec fn mime_of(e: Entries) -> Seq<u8> {
    match first_value(e, content_type_name()) {
        Some(v) => crate::headers::media_type_of(v),
        None => Seq::empty(),
    }
}

/// The headers once the content type that a body implies is added, where
/// none is set yet.
pub open spec fn with_content_type(v: RequestView, t: Option<Seq<char>>) -> Result<Entries, HeaderError> {
    match t {
        Some(t) => if has_content_type(v.headers) {
            Ok(v.headers)
        } else {
            append_spec(v.guard, v.headers, content_type_name(), vstd::utf8::encode_utf8(t))
        },
        None => Ok(v.headers),
    }
}

/// The descriptor once its body is set, or the error that a body on a GET or
/// HEAD request gives.
pub open spec fn body_spec(v: RequestView, input: RequestInfo, init: RequestInit) -> Result<
    RequestView,
    TypeError,
> {
    if (init.body matches Some(Some(_)) || input_body(input) is Some) && (v.method is Get
        || v.method is Head) {
        Err(TypeError::BodyWithGetOrHead)
    } else {
        match init.body {
            Some(Some(b)) => match with_content_type(v, body_content_type(b)) {
                Err(e) => Err(TypeError::Header(e)),
                Ok(h) => Ok(
                    RequestView { body: Some(body_bytes(b)), headers: h, mime_type: mime_of(h), ..v },
                ),
            },
            _ => Ok(RequestView { body: input_body(input), mime_type: mime_of(v.headers), ..v }),
        }
    }
}

/// The whole construction: the request built from `input` and `init` in the
/// environment `g`, or the first error met. `input_url` is the URL input
/// resolved against the base URL, and `rf` the referrer option so resolved.
pub open spec fn construct_spec(
    g: Global,
    input: RequestInfo,
    input_url: Option<UrlFactsView>,
    init: RequestInit,
    rf: Option<UrlFactsView>,
) -> Result<RequestView, TypeError> {
    match basis_spec(g, input, input_url) {
        Err(e) => Err(e),
        Ok(b) => if init.window == WindowInit::Value {
            Err(TypeError::WindowNotNull)
        } else {
            match init_spec(
                base_spec(g, b, init.window),
                fallback_mode(input),
                fallback_credentials(input),
                init,
                rf,
            ) {
                Err(e) => Err(e),
                Ok(v) => match headers_spec(v, input, init) {
                    Err(e) => Err(e),
                    Ok(v2) => body_spec(v2, input, init),
                },
            }
        },
    }
}

fn has_options_exec(init: &RequestInit) -> (r: bool)
    ensures
        r == has_options(*init),
{
    init.body.is_some() || init.cache.is_some() || init.credentials.is_some()
        || init.integrity.is_some() || init.headers.is_some() || init.method.is_some()
        || init.mode.is_some() || init.redirect.is_some() || init.referrer.is_some()
        || init.referrer_policy.is_some() || init.window != WindowInit::Absent
}

/// Resolves the referrer option `s`, where `f` is `s` resolved against the
/// base URL: empty means no referrer, `about:client` the client, and any
/// other URL must be of the environment's origin.
pub fn resolve_referrer(s: &String, f: Option<UrlFacts>) -> (r: Result<Referrer, TypeError>)
    ensures
        match referrer_spec(s@, opt_facts(f)) {
            Ok(v) => r matches Ok(x) && x@ == v,
            Err(e) => r == Err::<Referrer, TypeError>(e),
        },
{
    if s.as_str().unicode_len() == 0 {
        return Ok(Referrer::NoReferrer);
    }
    match f {
        None => Err(TypeError::ReferrerNotParsed),
        Some(f) => {
            if f.cannot_be_a_base && crate::method::str_equals(f.scheme.as_str(), "about")
                && crate::method::str_equals(f.path.as_str(), "client") {
                Ok(Referrer::Client)
            } else if !f.same_origin {
                Err(TypeError::ReferrerInvalidOrigin)
            } else {
                Ok(Referrer::ReferrerUrl(f.href))
            }
        },
    }
}

fn resolve_basis(global: &Global, input: &RequestInfo, input_url: Option<UrlFacts>) -> (r: Result<
    Request,
    TypeError,
>)
    ensures
        match basis_spec(*global, *input, opt_facts(input_url)) {
            Ok(v) => r matches Ok(q) && q@ == v,
            Err(e) => r == Err::<Request, TypeError>(e),
        },
{
    match input {
        RequestInfo::Url(_) => match input_url {
            None => Err(TypeError::UrlNotParsed),
            Some(f) => {
                if f.username.as_str().unicode_len() > 0 || f.has_password {
                    Err(TypeError::UrlIncludesCredentials)
                } else {
                    Ok(Request::fresh(global, f.href, false))
                }
            },
        },
        RequestInfo::Request(r) => {
            if r.disturbed() || r.locked() {
                Err(TypeError::InputDisturbedOrLocked)
            } else {
                Ok(r.copy())
            }
        },
    }
}

fn apply_init(
    global: &Global,
    b: Request,
    fb_mode: Option<Mode>,
    fb_cred: Option<CredentialsMode>,
    init: &RequestInit,
    rf: Option<UrlFacts>,
) -> (r: Result<Request, TypeError>)
    ensures
        match init_spec(base_spec(*global, b@, init.window), fb_mode, fb_cred, *init, opt_facts(rf)) {
            Ok(v) => r matches Ok(q) && q@ == v,
            Err(e) => r == Err::<Request, TypeError>(e),
        },
{
    proof {
        use_type_invariant(&b);
    }
    let opts = has_options_exec(init);
    if opts && b.mode == Mode::Navigate {
        return Err(TypeError::NavigateWithInit);
    }
    let mut omit_origin_header = b.omit_origin_header;
    let mut referrer = b.referrer.copy();
    let mut referrer_policy = b.referrer_policy;
    if opts {
        omit_origin_header = false;
        referrer = Referrer::Client;
        referrer_policy = None;
    }
    match &init.referrer {
        Some(s) => match resolve_referrer(s, rf) {
            Ok(x) => {
                referrer = x;
            },
            Err(e) => {
                return Err(e);
            },
        },
        None => {},
    }
    match init.referrer_policy {
        Some(p) => {
            referrer_policy = Some(p);
        },
        None => {},
    }
    let mode_opt = match init.mode {
        Some(m) => Some(m),
        None => fb_mode,
    };
    if mode_opt == Some(Mode::Navigate) {
        return Err(TypeError::ModeNavigate);
    }
    let mode = match mode_opt {
        Some(m) => m,
        None => b.mode,
    };
    let credentials_mode = match init.credentials {
        Some(c) => c,
        None => match fb_cred {
            Some(c) => c,
            None => b.credentials_mode,
        },
    };
    let cache_mode = match init.cache {
        Some(c) => c,
        None => b.cache_mode,
    };
    if cache_mode == CacheMode::OnlyIfCached && mode != Mode::SameOrigin {
        return Err(TypeError::OnlyIfCachedNotSameOrigin);
    }
    let redirect_mode = match init.redirect {
        Some(r) => r,
        None => b.redirect_mode,
    };
    let integrity_metadata = match &init.integrity {
        Some(s) => s.clone(),
        None => b.integrity_metadata.clone(),
    };
    let method = match &init.method {
        Some(m) => match parse_method_token(m.as_slice()) {
            Ok(x) => x,
            Err(MethodError::NotAMethod) => {
                return Err(TypeError::NotAMethod);
            },
            Err(MethodError::Forbidden) => {
                return Err(TypeError::ForbiddenMethod);
            },
        },
        None => b.method.copy(),
    };
    let n = b.url_list.len();
    let current = b.url_list[n - 1].clone();
    let ghost cur = current@;
    let mut url_list: Vec<String> = Vec::new();
    url_list.push(current);
    let window = if init.window == WindowInit::Absent {
        Window::Client
    } else {
        Window::NoWindow
    };
    let q = Request {
        url_list,
        method,
        headers: HeaderList::new(Guard::Unguarded),
        body: None,
        body_used: false,
        mime_type: Vec::new(),
        origin: RequestOrigin::Client,
        window,
        referrer,
        referrer_policy,
        mode,
        credentials_mode,
        cache_mode,
        redirect_mode,
        integrity_metadata,
        omit_origin_header,
        unsafe_request: true,
        same_origin_data: true,
        pipeline_id: Some(global.pipeline_id()),
        is_service_worker_global_scope: false,
        destination: Destination::Unspecified,
        request_type: RequestType::Unspecified,
    };
    assert(q@.url_list =~= seq![cur]);
    assert(q@.mime_type =~= Seq::<u8>::empty());
    Ok(q)
}

fn finish(q: Request, input: &RequestInfo, init: &RequestInit) -> (r: Result<Request, TypeError>)
    ensures
        match headers_spec(q@, *input, *init) {
            Err(e) => r == Err::<Request, TypeError>(e),
            Ok(v) => match body_spec(v, *input, *init) {
                Ok(w) => r matches Ok(x) && x@ == w,
                Err(e) => r == Err::<Request, TypeError>(e),
            },
        },
{
    proof {
        use_type_invariant(&q);
    }
    if q.mode == Mode::NoCors && !is_cors_safelisted_method(&q.method) {
        return Err(TypeError::NoCorsMethodNotSafelisted);
    }
    if q.mode == Mode::NoCors && q.integrity_metadata.as_str().unicode_len() > 0 {
        return Err(TypeError::NoCorsIntegrityNotEmpty);
    }
    let guard = if q.mode == Mode::NoCors {
        Guard::RequestNoCors
    } else {
        Guard::Request
    };
    let mut list = HeaderList::new(guard);
    let filled = match &init.headers {
        Some(h) => list.fill(h),
        None => match input {
            RequestInfo::Request(r) => {
                let src = HeadersInit::Headers(r.headers.copy());
                list.fill(&src)
            },
            RequestInfo::Url(_) => Ok(()),
        },
    };
    match filled {
        Err(e) => {
            return Err(TypeError::Header(e));
        },
        Ok(()) => {},
    }
    let input_has_body = match input {
        RequestInfo::Request(r) => r.body.is_some(),
        RequestInfo::Url(_) => false,
    };
    let init_has_body = match &init.body {
        Some(Some(_)) => true,
        _ => false,
    };
    let get_or_head = match q.method {
        Method::Get | Method::Head => true,
        _ => false,
    };
    if (init_has_body || input_has_body) && get_or_head {
        return Err(TypeError::BodyWithGetOrHead);
    }
    let body = match &init.body {
        Some(Some(b)) => {
            let ex = b.extract();
            match ex.content_type {
                Some(t) => {
                    let name = content_type_bytes();
                    if !list.has(name.as_slice()) {
                        match list.append(name.as_slice(), t.as_str().as_bytes()) {
                            Err(e) => {
                                return Err(TypeError::Header(e));
                            },
                            Ok(()) => {},
                        }
                    }
                },
                None => {},
            }
            Some(ex.bytes)
        },
        _ => match input {
            RequestInfo::Request(r) => copy_opt_bytes(&r.body),
            RequestInfo::Url(_) => None,
        },
    };
    let mime_type = list.extract_mime_type();
    let mut q = q;
    q.headers = list;
    q.body = body;
    q.mime_type = mime_type;
    Ok(q)
}

/// Builds a request from `input` and `init` in the environment `global`,
/// given what resolving URLs against the base URL gave: `input_url` for a
/// URL input, `referrer_url` for a non-empty referrer option.
pub fn construct_with(
    global: &Global,
    input: &RequestInfo,
    input_url: Option<UrlFacts>,
    init: &RequestInit,
    referrer_url: Option<UrlFacts>,
) -> (r: Result<Request, TypeError>)
    ensures
        match construct_spec(*global, *input, opt_facts(input_url), *init, opt_facts(referrer_url)) {
            Ok(v) => r matches Ok(q) && q@ == v,
            Err(e) => r == Err::<Request, TypeError>(e),
        },
{
    let b = match resolve_basis(global, input, input_url) {
        Ok(b) => b,
        Err(e) => {
            return Err(e);
        },
    };
    if init.window == WindowInit::Value {
        return Err(TypeError::WindowNotNull);
    }
    let fb_mode = match input {
        RequestInfo::Url(_) => Some(Mode::Cors),
        RequestInfo::Request(_) => None,
    };
    let fb_cred = match input {
        RequestInfo::Url(_) => Some(CredentialsMode::Omit),
        RequestInfo::Request(_) => None,
    };
    let q = match apply_init(global, b, fb_mode, fb_cred, init, referrer_url) {
        Ok(q) => q,
        Err(e) => {
            return Err(e);
        },
    };
    finish(q, input, init)
}

/// `r` is the outcome that `s` describes.
pub open spec fn outcome_is(r: Result<Request, TypeError>, s: Result<RequestView, TypeError>) -> bool {
    match s {
        Ok(v) => r matches Ok(q) && q@ == v,
        Err(e) => r == Err::<Request, TypeError>(e),
    }
}

/// The referrer option names `about:client`.
pub open spec fn is_about_client(f: UrlFactsView) -> bool {
    f.cannot_be_a_base && f.scheme == "about"@ && f.path == "client"@
}

/// What every request that construction hands out satisfies.
pub open spec fn is_consistent(v: RequestView, init: RequestInit) -> bool {
    &&& v.url_list.len() == 1
    &&& !v.body_used
    &&& v.unsafe_request
    &&& v.cache_mode == CacheMode::OnlyIfCached ==> v.mode == Mode::SameOrigin
    &&& v.mode == Mode::NoCors ==> spec_is_cors_safelisted_method(v.method)
        && v.integrity_metadata.len() == 0 && v.guard == Guard::RequestNoCors
    &&& has_options(init) ==> v.mode != Mode::Navigate
}

/// A method of CONNECT, TRACE or TRACK, in any case, is refused, whatever
/// else the input and the options hold.
pub proof fn forbidden_method_is_rejected(
    g: Global,
    input: RequestInfo,
    iu: Option<UrlFactsView>,
    init: RequestInit,
    rf: Option<UrlFactsView>,
)
    ensures
        (init.method matches Some(m) && spec_is_forbidden_method(m@)) ==> construct_spec(
            g,
            input,
            iu,
            init,
            rf,
        ) is Err,
{
}

/// Cache mode `only-if-cached` is refused with mode `cors`, and every
/// request constructed with it has mode `same-origin`.
pub proof fn only_if_cached_needs_same_origin(
    g: Global,
    input: RequestInfo,
    iu: Option<UrlFactsView>,
    init: RequestInit,
    rf: Option<UrlFactsView>,
)
    ensures
        init.cache == Some(CacheMode::OnlyIfCached) && init.mode == Some(Mode::Cors)
            ==> construct_spec(g, input, iu, init, rf) is Err,
        construct_spec(g, input, iu, init, rf) matches Ok(v) ==> (v.cache_mode
            == CacheMode::OnlyIfCached ==> v.mode == Mode::SameOrigin),
{
}

/// A body together with the method GET is refused.
pub proof fn body_on_get_is_rejected(
    g: Global,
    input: RequestInfo,
    iu: Option<UrlFactsView>,
    init: RequestInit,
    rf: Option<UrlFactsView>,
)
    ensures
        (init.body matches Some(Some(_)) && init.method matches Some(m)
            && crate::method::bytes_match(m@, "get"@)) ==> construct_spec(g, input, iu, init, rf) is Err,
{
    if let Some(m) = init.method {
        if crate::method::bytes_match(m@, "get"@) {
            reveal_strlit("get");
            reveal_strlit("connect");
            reveal_strlit("trace");
            reveal_strlit("track");
            reveal_strlit("delete");
            assert(spec_is_method(m@));
            assert(!spec_is_forbidden_method(m@));
            assert(!crate::method::bytes_match(m@, "delete"@));
            assert(method_for_token(m@) == Method::Get);
        }
    }
}

/// An empty referrer gives no referrer, `about:client` gives the client, and
/// a referrer of another origin is refused.
pub proof fn referrer_outcomes(
    g: Global,
    input: RequestInfo,
    iu: Option<UrlFactsView>,
    init: RequestInit,
    rf: Option<UrlFactsView>,
)
    ensures
        (init.referrer matches Some(s) && s@.len() == 0) ==> (construct_spec(g, input, iu, init, rf) matches Ok(
            v,
        ) ==> v.referrer == ReferrerView::NoReferrer),
        (init.referrer matches Some(s) && s@.len() > 0) ==> (rf matches Some(f) ==> (is_about_client(
            f,
        ) ==> (construct_spec(g, input, iu, init, rf) matches Ok(v) ==> v.referrer
            == ReferrerView::Client))),
        (init.referrer matches Some(s) && s@.len() > 0) ==> (rf matches Some(f) ==> ((
        !is_about_client(f) && !f.same_origin) ==> construct_spec(g, input, iu, init, rf) is Err)),
{
}

/// A request whose body has been read cannot be the input of another,
/// whatever the options.
pub proof fn disturbed_input_is_rejected(
    g: Global,
    input: RequestInfo,
    iu: Option<UrlFactsView>,
    init: RequestInit,
    rf: Option<UrlFactsView>,
)
    requires
        input matches RequestInfo::Request(x) && is_disturbed(x@),
    ensures
        construct_spec(g, input, iu, init, rf) == Err::<RequestView, TypeError>(
            TypeError::InputDisturbedOrLocked,
        ),
{
}

/// Every constructed request satisfies the descriptor's invariants.
pub proof fn constructed_request_is_consistent(
    g: Global,
    input: RequestInfo,
    iu: Option<UrlFactsView>,
    init: RequestInit,
    rf: Option<UrlFactsView>,
)
    ensures
        construct_spec(g, input, iu, init, rf) matches Ok(v) ==> is_consistent(v, init),
{
}

/// A request constructed from a URL with no options has mode `cors`,
/// credentials `omit`, method GET, and an unused body.
pub proof fn url_input_defaults(
    g: Global,
    input: RequestInfo,
    iu: Option<UrlFactsView>,
    init: RequestInit,
    rf: Option<UrlFactsView>,
)
    requires
        input is Url,
        iu matches Some(f) && !includes_credentials(f),
        !has_options(init),
    ensures
        construct_spec(g, input, iu, init, rf) matches Ok(v) && v.mode == Mode::Cors && v.method
            == MethodView::Get && v.credentials_mode == CredentialsMode::Omit && !v.body_used,
{
}

/// What resolving the input against the environment's base URL gives, for
/// a URL input.
pub open spec fn input_facts(g: Global, input: RequestInfo) -> Option<UrlFactsView> {
    match input {
        RequestInfo::Url(s) => g.resolve_spec(s@),
        RequestInfo::Request(_) => None,
    }
}

/// What resolving a non-empty referrer option against the environment's
/// base URL gives.
pub open spec fn referrer_facts(g: Global, init: RequestInit) -> Option<UrlFactsView> {
    match init.referrer {
        Some(s) => if s@.len() > 0 {
            g.resolve_spec(s@)
        } else {
            None
        },
        None => None,
    }
}

impl Request {
    /// Constructs a request from a URL, resolved against the environment's
    /// base URL, or from an existing request, with the options `init`.
    #[allow(non_snake_case)]
    pub fn Constructor(global: &Global, input: RequestInfo, init: &RequestInit) -> (r: Result<
        Request,
        TypeError,
    >)
        ensures
            outcome_is(
                r,
                construct_spec(
                    *global,
                    input,
                    input_facts(*global, input),
                    *init,
                    referrer_facts(*global, *init),
                ),
            ),
            r matches Ok(q) ==> is_consistent(q@, *init),
            input matches RequestInfo::Request(x) && is_disturbed(x@) ==> r
                == Err::<Request, TypeError>(TypeError::InputDisturbedOrLocked),
            init.method matches Some(m) && spec_is_forbidden_method(m@) ==> r is Err,
            init.cache == Some(CacheMode::OnlyIfCached) && init.mode == Some(Mode::Cors) ==> r is Err,
            init.body matches Some(Some(_)) && init.method matches Some(m)
                && crate::method::bytes_match(m@, "get"@) ==> r is Err,
    {
        let input_url = match &input {
            RequestInfo::Url(s) => global.resolve(s.as_str()),
            RequestInfo::Request(_) => None,
        };
        let referrer_url = match &init.referrer {
            Some(s) => if s.as_str().unicode_len() > 0 {
                global.resolve(s.as_str())
            } else {
                None
            },
            None => None,
        };
        let ghost iu = opt_facts(input_url);
        let ghost rf = opt_facts(referrer_url);
        let r = construct_with(global, &input, input_url, init, referrer_url);
        proof {
            constructed_request_is_consistent(*global, input, iu, *init, rf);
            forbidden_method_is_rejected(*global, input, iu, *init, rf);
            only_if_cached_needs_same_origin(*global, input, iu, *init, rf);
            body_on_get_is_rejected(*global, input, iu, *init, rf);
            assert(outcome_is(r, construct_spec(*global, input, iu, *init, rf)));
        }
        r
    }
}

#[allow(non_snake_case)]
impl Request {
    /// The method, as its token.
    pub fn Method(&self) -> (r: String)
        ensures
            r@ == crate::method::view_token(self@.method),
    {
        self.method.token()
    }

    /// The typed method.
    pub fn method(&self) -> (r: &Method)
        ensures
            r@ == self@.method,
    {
        &self.method
    }

    /// The request's first URL.
    pub fn Url(&self) -> (r: String)
        ensures
            r@ == self@.url_list[0],
    {
        proof {
            use_type_invariant(self);
        }
        self.url_list[0].clone()
    }

    pub fn Headers(&self) -> (r: &HeaderList)
        ensures
            r.entries_view() == self@.headers,
            r.spec_guard() == self@.guard,
    {
        &self.headers
    }

    /// Appends a header to the request's header list, under its guard.
    pub fn append_header(&mut self, name: &[u8], value: &[u8]) -> (r: Result<(), HeaderError>)
        ensures
            match append_spec(old(self)@.guard, old(self)@.headers, name@, value@) {
                Ok(e) => r is Ok && final(self)@ == (RequestView { headers: e, ..old(self)@ }),
                Err(err) => r == Err::<(), HeaderError>(err) && final(self)@ == old(self)@,
            },
    {
        proof {
            use_type_invariant(&*self);
        }
        let mut h = self.headers.copy();
        let r = h.append(name, value);
        self.headers = h;
        r
    }

    pub fn Type(&self) -> (r: RequestType)
        ensures
            r == self@.request_type,
    {
        self.request_type
    }

    pub fn Destination(&self) -> (r: Destination)
        ensures
            r == self@.destination,
    {
        self.destination
    }

    /// The referrer as text: `no-referrer`, `client`, or the URL.
    pub fn Referrer(&self) -> (r: String)
        ensures
            self@.referrer == ReferrerView::NoReferrer ==> r@ == "no-referrer"@,
            self@.referrer == ReferrerView::Client ==> r@ == "client"@,
            self@.referrer matches ReferrerView::ReferrerUrl(u) ==> r@ == u,
    {
        match &self.referrer {
            Referrer::NoReferrer => String::from_str("no-referrer"),
            Referrer::Client => String::from_str("client"),
            Referrer::ReferrerUrl(u) => u.clone(),
        }
    }

    pub fn referrer(&self) -> (r: &Referrer)
        ensures
            r@ == self@.referrer,
    {
        &self.referrer
    }

    pub fn ReferrerPolicy(&self) -> (r: Option<ReferrerPolicy>)
        ensures
            r == self@.referrer_policy,
    {
        self.referrer_policy
    }

    pub fn Mode(&self) -> (r: Mode)
        ensures
            r == self@.mode,
    {
        self.mode
    }

    pub fn Credentials(&self) -> (r: CredentialsMode)
        ensures
            r == self@.credentials_mode,
    {
        self.credentials_mode
    }

    pub fn Cache(&self) -> (r: CacheMode)
        ensures
            r == self@.cache_mode,
    {
        self.cache_mode
    }

    pub fn Redirect(&self) -> (r: RedirectMode)
        ensures
            r == self@.redirect_mode,
    {
        self.redirect_mode
    }

    pub fn Integrity(&self) -> (r: String)
        ensures
            r@ == self@.integrity_metadata,
    {
        self.integrity_metadata.clone()
    }

    pub fn BodyUsed(&self) -> (r: bool)
        ensures
            r == self@.body_used,
    {
        self.body_used
    }

    pub fn window(&self) -> (r: Window)
        ensures
            r == self@.window,
    {
        self.window
    }

    pub fn origin(&self) -> (r: &RequestOrigin)
        ensures
            r@ == self@.origin,
    {
        &self.origin
    }

    pub fn omit_origin_header(&self) -> (r: bool)
        ensures
            r == self@.omit_origin_header,
    {
        self.omit_origin_header
    }

    pub fn unsafe_request(&self) -> (r: bool)
        ensures
            r == self@.unsafe_request,
    {
        self.unsafe_request
    }

    /// Whether a body is present (not yet taken).
    pub fn has_body(&self) -> (r: bool)
        ensures
            r == self@.body is Some,
    {
        self.body.is_some()
    }

    /// The MIME type recorded at construction.
    pub fn get_mime_type(&self) -> (r: Vec<u8>)
        ensures
            r@ == self@.mime_type,
    {
        crate::headers::copy_bytes(self.mime_type.as_slice())
    }
}

/// Reading a body is one-way: once read, the body stays used, and a second
/// read yields nothing.
pub proof fn consumption_is_monotonic(v: RequestView)
    ensures
        after_consume(v).body_used,
        after_consume(after_consume(v)).body_used,
        consumed_bytes(after_consume(v)) == Seq::<u8>::empty(),
        is_disturbed(after_consume(v)),
{
}

} // verus!
