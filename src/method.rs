//! HTTP method tokens: recognition, normalization and the typed form.
use vstd::prelude::*;

verus! {

/// A request method: one of the canonical methods, or an extension token
/// kept with its original casing.
#[derive(Debug, Clone, PartialEq, Eq)]
pub enum Method {
    Get,
    Head,
    Post,
    Put,
    Delete,
    Options,
    Extension(String),
}

/// A method as a mathematical value.
pub enum MethodView {
    Get,
    Head,
    Post,
    Put,
    Delete,
    Options,
    Extension(Seq<char>),
}

impl View for Method {
    type V = MethodView;

    open spec fn view(&self) -> MethodView {
        match self {
            Method::Get => MethodView::Get,
            Method::Head => MethodView::Head,
            Method::Post => MethodView::Post,
            Method::Put => MethodView::Put,
            Method::Delete => MethodView::Delete,
            Method::Options => MethodView::Options,
            Method::Extension(s) => MethodView::Extension(s@),
        }
    }
}

impl Method {
    /// An independent copy of the method.
    pub fn copy(&self) -> (r: Method)
        ensures
            r@ == self@,
    {
        match self {
            Method::Get => Method::Get,
            Method::Head => Method::Head,
            Method::Post => Method::Post,
            Method::Put => Method::Put,
            Method::Delete => Method::Delete,
            Method::Options => Method::Options,
            Method::Extension(s) => Method::Extension(s.clone()),
        }
    }

    /// The token that the method is written as.
    pub fn token(&self) -> (r: String)
        ensures
            r@ == token_of(*self),
            r@ == view_token(self@),
    {
        match self {
            Method::Get => String::from_str("GET"),
            Method::Head => String::from_str("HEAD"),
            Method::Post => String::from_str("POST"),
            Method::Put => String::from_str("PUT"),
            Method::Delete => String::from_str("DELETE"),
            Method::Options => String::from_str("OPTIONS"),
            Method::Extension(s) => s.clone(),
        }
    }
}

/// The ASCII lower-case code of a character.
pub open spec fn lower_code(c: char) -> u32 {
    if 65 <= c as u32 && c as u32 <= 90 {
        (c as u32 + 32) as u32
    } else {
        c as u32
    }
}

/// The ASCII lower-case code of a byte.
pub open spec fn lower_byte(b: u8) -> u32 {
    if 65 <= b && b <= 90 {
        (b + 32) as u32
    } else {
        b as u32
    }
}

/// `s` equals the lower-case name `name`, ignoring ASCII case.
pub open spec fn chars_match(s: Seq<char>, name: Seq<char>) -> bool {
    &&& s.len() == name.len()
    &&& forall|i: int| 0 <= i < s.len() ==> lower_code(#[trigger] s[i]) == name[i] as u32
}

/// The byte string `m` equals the lower-case name `name`, ignoring ASCII case.
pub open spec fn bytes_match(m: Seq<u8>, name: Seq<char>) -> bool {
    &&& m.len() == name.len()
    &&& forall|i: int| 0 <= i < m.len() ==> lower_byte(#[trigger] m[i]) == name[i] as u32
}

/// The canonical form of a method: the six known methods in upper case,
/// any other token unchanged.
pub open spec fn canonical_method(s: Seq<char>) -> Seq<char> {
    if chars_match(s, "delete"@) {
        "DELETE"@
    } else if chars_match(s, "get"@) {
        "GET"@
    } else if chars_match(s, "head"@) {
        "HEAD"@
    } else if chars_match(s, "options"@) {
        "OPTIONS"@
    } else if chars_match(s, "post"@) {
        "POST"@
    } else if chars_match(s, "put"@) {
        "PUT"@
    } else {
        s
    }
}

/// A recognized method token: one of the eight methods that fetch names.
pub open spec fn spec_is_method(m: Seq<u8>) -> bool {
    bytes_match(m, "get"@) || bytes_match(m, "head"@) || bytes_match(m, "post"@)
        || bytes_match(m, "put"@) || bytes_match(m, "delete"@) || bytes_match(m, "connect"@)
        || bytes_match(m, "options"@) || bytes_match(m, "trace"@)
}

/// A method token that a request may never carry.
pub open spec fn spec_is_forbidden_method(m: Seq<u8>) -> bool {
    bytes_match(m, "connect"@) || bytes_match(m, "trace"@) || bytes_match(m, "track"@)
}

/// The six methods that have a variant of their own, in canonical form.
pub open spec fn is_known_method(s: Seq<char>) -> bool {
    s == "DELETE"@ || s == "GET"@ || s == "HEAD"@ || s == "OPTIONS"@ || s == "POST"@ || s == "PUT"@
}

/// The variant of a known canonical method.
pub open spec fn known_method(s: Seq<char>) -> Method {
    if s == "DELETE"@ {
        Method::Delete
    } else if s == "GET"@ {
        Method::Get
    } else if s == "HEAD"@ {
        Method::Head
    } else if s == "OPTIONS"@ {
        Method::Options
    } else if s == "POST"@ {
        Method::Post
    } else {
        Method::Put
    }
}

/// The token that a method value is written as.
pub open spec fn view_token(m: MethodView) -> Seq<char> {
    match m {
        MethodView::Get => "GET"@,
        MethodView::Head => "HEAD"@,
        MethodView::Post => "POST"@,
        MethodView::Put => "PUT"@,
        MethodView::Delete => "DELETE"@,
        MethodView::Options => "OPTIONS"@,
        MethodView::Extension(s) => s,
    }
}

/// The token that a typed method is written as.
pub open spec fn token_of(m: Method) -> Seq<char> {
    match m {
        Method::Get => "GET"@,
        Method::Head => "HEAD"@,
        Method::Post => "POST"@,
        Method::Put => "PUT"@,
        Method::Delete => "DELETE"@,
        Method::Options => "OPTIONS"@,
        Method::Extension(s) => s@,
    }
}

/// The typed method that a recognized, permitted token becomes.
pub open spec fn method_for_token(m: Seq<u8>) -> Method {
    if bytes_match(m, "delete"@) {
        Method::Delete
    } else if bytes_match(m, "get"@) {
        Method::Get
    } else if bytes_match(m, "head"@) {
        Method::Head
    } else if bytes_match(m, "options"@) {
        Method::Options
    } else if bytes_match(m, "post"@) {
        Method::Post
    } else {
        Method::Put
    }
}

/// GET, HEAD and POST: the methods allowed on a no-cors request.
pub open spec fn spec_is_cors_safelisted_method(m: MethodView) -> bool {
    m is Get || m is Head || m is Post
}

fn str_matches(s: &str, name: &str) -> (r: bool)
    ensures
        r == chars_match(s@, name@),
{
    let n = s.unicode_len();
    if n != name.unicode_len() {
        return false;
    }
    let mut i: usize = 0;
    while i < n
        invariant
            n == s@.len(),
            n == name@.len(),
            i <= n,
            forall|j: int| 0 <= j < i ==> lower_code(#[trigger] s@[j]) == name@[j] as u32,
        decreases n - i,
    {
        let c = s.get_char(i);
        let code: u32 = if 65 <= c as u32 && c as u32 <= 90 {
            c as u32 + 32
        } else {
            c as u32
        };
        if code != name.get_char(i) as u32 {
            return false;
        }
        i = i + 1;
    }
    true
}

pub(crate) fn bytes_matches(m: &[u8], name: &str) -> (r: bool)
    ensures
        r == bytes_match(m@, name@),
{
    let n = m.len();
    if n != name.unicode_len() {
        return false;
    }
    let mut i: usize = 0;
    while i < n
        invariant
            n == m@.len(),
            n == name@.len(),
            i <= n,
            forall|j: int| 0 <= j < i ==> lower_byte(#[trigger] m@[j]) == name@[j] as u32,
        decreases n - i,
    {
        let b = m[i];
        let code: u32 = if 65 <= b && b <= 90 {
            (b + 32) as u32
        } else {
            b as u32
        };
        if code != name.get_char(i) as u32 {
            return false;
        }
        i = i + 1;
    }
    true
}

/// Normalizes a method token: the six known methods, in any case, become
/// their upper-case form; any other token is returned as it is.
pub fn normalize_method(m: &str) -> (r: String)
    ensures
        r@ == canonical_method(m@),
{
    if str_matches(m, "delete") {
        String::from_str("DELETE")
    } else if str_matches(m, "get") {
        String::from_str("GET")
    } else if str_matches(m, "head") {
        String::from_str("HEAD")
    } else if str_matches(m, "options") {
        String::from_str("OPTIONS")
    } else if str_matches(m, "post") {
        String::from_str("POST")
    } else if str_matches(m, "put") {
        String::from_str("PUT")
    } else {
        m.to_owned()
    }
}

pub(crate) fn str_equals(s: &str, t: &str) -> (r: bool)
    ensures
        r == (s@ == t@),
{
    let n = s.unicode_len();
    if n != t.unicode_len() {
        return false;
    }
    let mut i: usize = 0;
    while i < n
        invariant
            n == s@.len(),
            n == t@.len(),
            i <= n,
            forall|j: int| 0 <= j < i ==> #[trigger] s@[j] == t@[j],
        decreases n - i,
    {
        if s.get_char(i) != t.get_char(i) {
            return false;
        }
        i = i + 1;
    }
    assert(s@ =~= t@);
    true
}

/// The typed method for a normalized token: a known method becomes its own
/// variant, anything else an extension holding the token.
pub fn normalized_method_to_typed_method(m: &str) -> (r: Method)
    ensures
        token_of(r) == m@,
        is_known_method(m@) ==> r == known_method(m@),
        !is_known_method(m@) ==> r is Extension,
{
    if str_equals(m, "DELETE") {
        Method::Delete
    } else if str_equals(m, "GET") {
        Method::Get
    } else if str_equals(m, "HEAD") {
        Method::Head
    } else if str_equals(m, "OPTIONS") {
        Method::Options
    } else if str_equals(m, "POST") {
        Method::Post
    } else if str_equals(m, "PUT") {
        Method::Put
    } else {
        Method::Extension(m.to_owned())
    }
}

/// Whether `m` is, ignoring ASCII case, one of the eight methods that fetch
/// recognizes.
pub fn is_method(m: &[u8]) -> (r: bool)
    ensures
        r == spec_is_method(m@),
{
    bytes_matches(m, "get") || bytes_matches(m, "head") || bytes_matches(m, "post")
        || bytes_matches(m, "put") || bytes_matches(m, "delete") || bytes_matches(m, "connect")
        || bytes_matches(m, "options") || bytes_matches(m, "trace")
}

/// Whether `m` is, ignoring ASCII case, CONNECT, TRACE or TRACK.
pub fn is_forbidden_method(m: &[u8]) -> (r: bool)
    ensures
        r == spec_is_forbidden_method(m@),
{
    bytes_matches(m, "connect") || bytes_matches(m, "trace") || bytes_matches(m, "track")
}

/// Whether a method may be used on a no-cors request.
pub fn is_cors_safelisted_method(m: &Method) -> (r: bool)
    ensures
        r == spec_is_cors_safelisted_method(m@),
{
    match m {
        Method::Get | Method::Head | Method::Post => true,
        _ => false,
    }
}

/// The lower-case name of a recognized method token.
fn lower_method_name(m: &[u8]) -> (r: Option<&'static str>)
    ensures
        r is Some <==> spec_is_method(m@),
        r matches Some(s) ==> bytes_match(m@, s@) && (s@ == "get"@ || s@ == "head"@
            || s@ == "post"@ || s@ == "put"@ || s@ == "delete"@ || s@ == "connect"@
            || s@ == "options"@ || s@ == "trace"@),
{
    if bytes_matches(m, "get") {
        Some("get")
    } else if bytes_matches(m, "head") {
        Some("head")
    } else if bytes_matches(m, "post") {
        Some("post")
    } else if bytes_matches(m, "put") {
        Some("put")
    } else if bytes_matches(m, "delete") {
        Some("delete")
    } else if bytes_matches(m, "connect") {
        Some("connect")
    } else if bytes_matches(m, "options") {
        Some("options")
    } else if bytes_matches(m, "trace") {
        Some("trace")
    } else {
        None
    }
}

/// Reads a method token supplied by a caller: an unrecognized token and a
/// forbidden one are refused; a permitted one becomes its typed method.
pub fn parse_method_token(m: &[u8]) -> (r: Result<Method, MethodError>)
    ensures
        !spec_is_method(m@) ==> r == Err::<Method, MethodError>(MethodError::NotAMethod),
        spec_is_method(m@) && spec_is_forbidden_method(m@) ==> r == Err::<Method, MethodError>(
            MethodError::Forbidden,
        ),
        spec_is_method(m@) && !spec_is_forbidden_method(m@) ==> r == Ok::<Method, MethodError>(
            method_for_token(m@),
        ),
{
    if !is_method(m) {
        return Err(MethodError::NotAMethod);
    }
    if is_forbidden_method(m) {
        return Err(MethodError::Forbidden);
    }
    let name = match lower_method_name(m) {
        Some(s) => s,
        None => return Err(MethodError::NotAMethod),
    };
    let normalized = normalize_method(name);
    let typed = normalized_method_to_typed_method(normalized.as_str());
    proof {
        reveal_strlit("get");
        reveal_strlit("head");
        reveal_strlit("post");
        reveal_strlit("put");
        reveal_strlit("delete");
        reveal_strlit("connect");
        reveal_strlit("options");
        reveal_strlit("trace");
        reveal_strlit("track");
        reveal_strlit("GET");
        reveal_strlit("HEAD");
        reveal_strlit("POST");
        reveal_strlit("PUT");
        reveal_strlit("DELETE");
        reveal_strlit("OPTIONS");
        assert(lower_byte(m@[0]) == name@[0] as u32);
        assert(lower_code(name@[0]) == name@[0] as u32);
        lemma_canonical_names_distinct();
        if name@ == "post"@ {
            assert(lower_code(name@[0]) != "head"@[0] as u32);
            assert(normalized@ == "POST"@);
            assert(typed == Method::Post);
        }
        if name@ == "put"@ {
            assert(lower_code(name@[0]) != "get"@[0] as u32);
            assert(!chars_match(name@, "get"@));
            assert(!chars_match(name@, "head"@));
            assert(!chars_match(name@, "post"@));
            assert(chars_match(name@, "put"@));
            assert(normalized@ == "PUT"@);
            assert(known_method("PUT"@) == Method::Put);
            assert(typed == Method::Put);
        }
    }
    Ok(typed)
}

proof fn lemma_canonical_names_distinct()
    ensures
        "GET"@ != "PUT"@,
        "HEAD"@ != "POST"@,
        "DELETE"@ != "GET"@,
        "DELETE"@ != "HEAD"@,
        "DELETE"@ != "OPTIONS"@,
        "GET"@ != "HEAD"@,
        "GET"@ != "OPTIONS"@,
        "GET"@ != "POST"@,
        "HEAD"@ != "OPTIONS"@,
        "OPTIONS"@ != "POST"@,
        "OPTIONS"@ != "PUT"@,
{
    reveal_strlit("GET");
    reveal_strlit("HEAD");
    reveal_strlit("POST");
    reveal_strlit("PUT");
    reveal_strlit("DELETE");
    reveal_strlit("OPTIONS");
    assert("GET"@[0] != "PUT"@[0]);
    assert("HEAD"@[0] != "POST"@[0]);
    assert("DELETE"@.len() != "OPTIONS"@.len());
}

/// Normalizing is idempotent: a normalized method normalizes to itself.
pub proof fn normalize_method_idempotent(s: Seq<char>)
    ensures
        canonical_method(canonical_method(s)) == canonical_method(s),
{
    reveal_strlit("delete");
    reveal_strlit("get");
    reveal_strlit("head");
    reveal_strlit("options");
    reveal_strlit("post");
    reveal_strlit("put");
    reveal_strlit("DELETE");
    reveal_strlit("GET");
    reveal_strlit("HEAD");
    reveal_strlit("OPTIONS");
    reveal_strlit("POST");
    reveal_strlit("PUT");
}

/// Why a caller-supplied method token was refused.
#[derive(Debug, Clone, Copy, PartialEq, Eq)]
pub enum MethodError {
    NotAMethod,
    Forbidden,
}

} // verus!
