//! The header list of a request, with the guard that restricts what may be
//! added to it.
use vstd::prelude::*;
use crate::method::{bytes_match, bytes_matches, lower_byte};

verus! {

/// What kind of object owns a header list, and so which headers it admits.
#[derive(Debug, Clone, Copy, PartialEq, Eq, Structural)]
pub enum Guard {
    Immutable,
    Request,
    RequestNoCors,
    Response,
    Unguarded,
}

/// Why a header could not be added.
#[derive(Debug, Clone, Copy, PartialEq, Eq, Structural)]
pub enum HeaderError {
    /// The name is empty or holds a byte that a header name cannot hold.
    InvalidName,
    /// The value holds a NUL, CR or LF byte.
    InvalidValue,
    /// The list is immutable.
    Immutable,
    /// A header given as a sequence does not hold exactly a name and a value.
    MalformedPair,
}

/// One header: a name, stored in lower case, and its value.
#[derive(Debug)]
pub struct Header {
    pub name: Vec<u8>,
    pub value: Vec<u8>,
}

/// An ordered list of headers and its guard.
#[derive(Debug)]
pub struct HeaderList {
    entries: Vec<Header>,
    guard: Guard,
}

/// Headers supplied by a caller, in one of three shapes.
#[derive(Debug)]
pub enum HeadersInit {
    /// Another header list.
    Headers(HeaderList),
    /// A sequence of `[name, value]` sequences.
    Pairs(Vec<Vec<Vec<u8>>>),
    /// A record of names to values.
    Record(Vec<(Vec<u8>, Vec<u8>)>),
}

pub type Entries = Seq<(Seq<u8>, Seq<u8>)>;

/// The view of a header: its name and value as byte sequences.
pub open spec fn header_view(h: Header) -> (Seq<u8>, Seq<u8>) {
    (h.name@, h.value@)
}

impl HeaderList {
    /// The headers, in order.
    pub closed spec fn entries_view(&self) -> Entries {
        self.entries@.map_values(|h: Header| header_view(h))
    }

    pub closed spec fn spec_guard(&self) -> Guard {
        self.guard
    }
}

/// A byte that may stand in a header name (an HTTP token character).
pub open spec fn is_token_byte(b: u8) -> bool {
    (48 <= b && b <= 57) || (65 <= b && b <= 90) || (97 <= b && b <= 122) || b == 33 || b == 35
        || b == 36 || b == 37 || b == 38 || b == 39 || b == 42 || b == 43 || b == 45 || b == 46
        || b == 94 || b == 95 || b == 96 || b == 124 || b == 126
}

pub open spec fn valid_name(n: Seq<u8>) -> bool {
    n.len() > 0 && forall|i: int| 0 <= i < n.len() ==> is_token_byte(#[trigger] n[i])
}

pub open spec fn valid_value(v: Seq<u8>) -> bool {
    forall|i: int| 0 <= i < v.len() ==> #[trigger] v[i] != 0 && v[i] != 10 && v[i] != 13
}

/// A name in ASCII lower case.
pub open spec fn lower(n: Seq<u8>) -> Seq<u8> {
    Seq::new(n.len(), |i: int| lower_byte(n[i]) as u8)
}

/// `n` starts, ignoring ASCII case, with the lower-case `prefix`.
pub open spec fn has_prefix(n: Seq<u8>, prefix: Seq<char>) -> bool {
    n.len() >= prefix.len() && bytes_match(n.take(prefix.len() as int), prefix)
}

/// A name that a script may not set on a request.
pub open spec fn is_forbidden_header_name(n: Seq<u8>) -> bool {
    bytes_match(n, "accept-charset"@) || bytes_match(n, "accept-encoding"@)
        || bytes_match(n, "access-control-request-headers"@)
        || bytes_match(n, "access-control-request-method"@) || bytes_match(n, "connection"@)
        || bytes_match(n, "content-length"@) || bytes_match(n, "cookie"@)
        || bytes_match(n, "cookie2"@) || bytes_match(n, "date"@) || bytes_match(n, "dnt"@)
        || bytes_match(n, "expect"@) || bytes_match(n, "host"@) || bytes_match(n, "keep-alive"@)
        || bytes_match(n, "origin"@) || bytes_match(n, "referer"@) || bytes_match(n, "te"@)
        || bytes_match(n, "trailer"@) || bytes_match(n, "transfer-encoding"@)
        || bytes_match(n, "upgrade"@) || bytes_match(n, "via"@) || has_prefix(n, "proxy-"@)
        || has_prefix(n, "sec-"@)
}

/// A name that a script may not set on a response.
pub open spec fn is_forbidden_response_header_name(n: Seq<u8>) -> bool {
    bytes_match(n, "set-cookie"@) || bytes_match(n, "set-cookie2"@)
}

/// `k` is where the media type essence of `v` ends: at the first `;`, or at
/// the end.
pub open spec fn is_essence_end(v: Seq<u8>, k: int) -> bool {
    &&& 0 <= k <= v.len()
    &&& (k == v.len() || v[k] == 59)
    &&& forall|j: int| 0 <= j < k ==> #[trigger] v[j] != 59
}

/// A content type that a no-cors request may carry.
pub open spec fn is_safelisted_content_type(v: Seq<u8>) -> bool {
    exists|k: int|
        #![trigger v.take(k)]
        is_essence_end(v, k) && (bytes_match(v.take(k), "application/x-www-form-urlencoded"@)
            || bytes_match(v.take(k), "multipart/form-data"@) || bytes_match(
            v.take(k),
            "text/plain"@,
        ))
}

/// A header that a no-cors request may carry.
pub open spec fn is_cors_safelisted_request_header(n: Seq<u8>, v: Seq<u8>) -> bool {
    bytes_match(n, "accept"@) || bytes_match(n, "accept-language"@) || bytes_match(
        n,
        "content-language"@,
    ) || (bytes_match(n, "content-type"@) && is_safelisted_content_type(v))
}

/// Whether a list with guard `g` takes in the (valid) header `n: v`.
pub open spec fn admits(g: Guard, n: Seq<u8>, v: Seq<u8>) -> bool {
    match g {
        Guard::Request => !is_forbidden_header_name(n),
        Guard::RequestNoCors => is_cors_safelisted_request_header(n, v),
        Guard::Response => !is_forbidden_response_header_name(n),
        _ => true,
    }
}

/// The headers after appending `n: v` to `e` under guard `g`: the header is
/// refused when malformed or when the list is immutable; it is left out,
/// with no error, when the guard does not admit it.
pub open spec fn append_spec(g: Guard, e: Entries, n: Seq<u8>, v: Seq<u8>) -> Result<
    Entries,
    HeaderError,
> {
    if !valid_name(n) {
        Err(HeaderError::InvalidName)
    } else if !valid_value(v) {
        Err(HeaderError::InvalidValue)
    } else if g == Guard::Immutable {
        Err(HeaderError::Immutable)
    } else if admits(g, n, v) {
        Ok(e.push((lower(n), v)))
    } else {
        Ok(e)
    }
}

/// The headers after appending each of `src`, in order, to `e`.
pub open spec fn fill_spec(g: Guard, e: Entries, src: Entries) -> Result<Entries, HeaderError>
    decreases src.len(),
{
    if src.len() == 0 {
        Ok(e)
    } else {
        match fill_spec(g, e, src.drop_last()) {
            Ok(e2) => append_spec(g, e2, src.last().0, src.last().1),
            Err(err) => Err(err),
        }
    }
}

/// The value of the first header named `n`, if any.
pub open spec fn first_value(e: Entries, n: Seq<u8>) -> Option<Seq<u8>>
    decreases e.len(),
{
    if e.len() == 0 {
        None
    } else if e[0].0 == n {
        Some(e[0].1)
    } else {
        first_value(e.drop_first(), n)
    }
}

/// The headers that a caller-supplied value stands for, or the error that
/// it holds.
pub open spec fn init_entries(init: HeadersInit) -> Result<Entries, HeaderError> {
    match init {
        HeadersInit::Headers(list) => Ok(list.entries_view()),
        HeadersInit::Pairs(pairs) => if forall|i: int|
            0 <= i < pairs@.len() ==> (#[trigger] pairs@[i])@.len() == 2 {
            Ok(
                pairs@.map_values(
                    |p: Vec<Vec<u8>>| (p@[0]@, p@[1]@),
                ),
            )
        } else {
            Err(HeaderError::MalformedPair)
        },
        HeadersInit::Record(rec) => Ok(rec@.map_values(|p: (Vec<u8>, Vec<u8>)| (p.0@, p.1@))),
    }
}

pub(crate) fn copy_bytes(b: &[u8]) -> (r: Vec<u8>)
    ensures
        r@ == b@,
{
    let mut r: Vec<u8> = Vec::new();
    let mut i: usize = 0;
    while i < b.len()
        invariant
            i <= b@.len(),
            r@ == b@.take(i as int),
        decreases b@.len() - i,
    {
        r.push(b[i]);
        i = i + 1;
        assert(r@ =~= b@.take(i as int));
    }
    assert(r@ =~= b@);
    r
}

pub(crate) fn bytes_equal(a: &[u8], b: &[u8]) -> (r: bool)
    ensures
        r == (a@ == b@),
{
    if a.len() != b.len() {
        return false;
    }
    let mut i: usize = 0;
    while i < a.len()
        invariant
            a@.len() == b@.len(),
            i <= a@.len(),
            forall|j: int| 0 <= j < i ==> #[trigger] a@[j] == b@[j],
        decreases a@.len() - i,
    {
        if a[i] != b[i] {
            return false;
        }
        i = i + 1;
    }
    assert(a@ =~= b@);
    true
}

fn to_lower(b: &[u8]) -> (r: Vec<u8>)
    ensures
        r@ == lower(b@),
{
    let mut r: Vec<u8> = Vec::new();
    let mut i: usize = 0;
    while i < b.len()
        invariant
            i <= b@.len(),
            r@ == lower(b@).take(i as int),
        decreases b@.len() - i,
    {
        let c = b[i];
        let l: u8 = if 65 <= c && c <= 90 {
            c + 32
        } else {
            c
        };
        r.push(l);
        i = i + 1;
        assert(r@ =~= lower(b@).take(i as int));
    }
    assert(r@ =~= lower(b@));
    r
}

fn is_valid_name(n: &[u8]) -> (r: bool)
    ensures
        r == valid_name(n@),
{
    if n.len() == 0 {
        return false;
    }
    let mut i: usize = 0;
    while i < n.len()
        invariant
            i <= n@.len(),
            forall|j: int| 0 <= j < i ==> is_token_byte(#[trigger] n@[j]),
        decreases n@.len() - i,
    {
        let b = n[i];
        let ok = (48 <= b && b <= 57) || (65 <= b && b <= 90) || (97 <= b && b <= 122) || b == 33
            || b == 35 || b == 36 || b == 37 || b == 38 || b == 39 || b == 42 || b == 43 || b
            == 45 || b == 46 || b == 94 || b == 95 || b == 96 || b == 124 || b == 126;
        if !ok {
            return false;
        }
        i = i + 1;
    }
    true
}

fn is_valid_value(v: &[u8]) -> (r: bool)
    ensures
        r == valid_value(v@),
{
    let mut i: usize = 0;
    while i < v.len()
        invariant
            i <= v@.len(),
            forall|j: int| 0 <= j < i ==> #[trigger] v@[j] != 0 && v@[j] != 10 && v@[j] != 13,
        decreases v@.len() - i,
    {
        let b = v[i];
        if b == 0 || b == 10 || b == 13 {
            return false;
        }
        i = i + 1;
    }
    true
}

fn has_prefix_exec(n: &[u8], prefix: &str) -> (r: bool)
    ensures
        r == has_prefix(n@, prefix@),
{
    let k = prefix.unicode_len();
    if n.len() < k {
        return false;
    }
    let head = slice_prefix(n, k);
    bytes_matches(head.as_slice(), prefix)
}

fn slice_prefix(n: &[u8], k: usize) -> (r: Vec<u8>)
    requires
        k <= n@.len(),
    ensures
        r@ == n@.take(k as int),
{
    let mut r: Vec<u8> = Vec::new();
    let mut i: usize = 0;
    while i < k
        invariant
            k <= n@.len(),
            i <= k,
            r@ == n@.take(i as int),
        decreases k - i,
    {
        r.push(n[i]);
        i = i + 1;
        assert(r@ =~= n@.take(i as int));
    }
    r
}

/// Whether `n` is a name that a script may not set on a request.
pub fn forbidden_header_name(n: &[u8]) -> (r: bool)
    ensures
        r == is_forbidden_header_name(n@),
{
    bytes_matches(n, "accept-charset") || bytes_matches(n, "accept-encoding") || bytes_matches(
        n,
        "access-control-request-headers",
    ) || bytes_matches(n, "access-control-request-method") || bytes_matches(n, "connection")
        || bytes_matches(n, "content-length") || bytes_matches(n, "cookie") || bytes_matches(
        n,
        "cookie2",
    ) || bytes_matches(n, "date") || bytes_matches(n, "dnt") || bytes_matches(n, "expect")
        || bytes_matches(n, "host") || bytes_matches(n, "keep-alive") || bytes_matches(n, "origin")
        || bytes_matches(n, "referer") || bytes_matches(n, "te") || bytes_matches(n, "trailer")
        || bytes_matches(n, "transfer-encoding") || bytes_matches(n, "upgrade") || bytes_matches(
        n,
        "via",
    ) || has_prefix_exec(n, "proxy-") || has_prefix_exec(n, "sec-")
}

fn essence_end(v: &[u8]) -> (k: usize)
    ensures
        is_essence_end(v@, k as int),
{
    let mut i: usize = 0;
    while i < v.len() && v[i] != 59
        invariant
            i <= v@.len(),
            forall|j: int| 0 <= j < i ==> #[trigger] v@[j] != 59,
        decreases v@.len() - i,
    {
        i = i + 1;
    }
    i
}

/// Whether `v` is a content type that a no-cors request may carry: its
/// essence, up to the first `;`, is one of the three CORS-safelisted types.
pub fn safelisted_content_type(v: &[u8]) -> (r: bool)
    ensures
        r == is_safelisted_content_type(v@),
{
    let k = essence_end(v);
    let essence = slice_prefix(v, k);
    let r = bytes_matches(essence.as_slice(), "application/x-www-form-urlencoded")
        || bytes_matches(essence.as_slice(), "multipart/form-data") || bytes_matches(
        essence.as_slice(),
        "text/plain",
    );
    proof {
        assert forall|k2: int| is_essence_end(v@, k2) implies k2 == k by {
            if k2 < k {
                assert(v@[k2] != 59);
            } else if k2 > k {
                assert(v@[k as int] != 59);
            }
        }
    }
    r
}

/// Whether the header `n: v` may be set on a no-cors request.
pub fn cors_safelisted_request_header(n: &[u8], v: &[u8]) -> (r: bool)
    ensures
        r == is_cors_safelisted_request_header(n@, v@),
{
    bytes_matches(n, "accept") || bytes_matches(n, "accept-language") || bytes_matches(
        n,
        "content-language",
    ) || (bytes_matches(n, "content-type") && safelisted_content_type(v))
}

fn guard_admits(g: Guard, n: &[u8], v: &[u8]) -> (r: bool)
    ensures
        r == admits(g, n@, v@),
{
    match g {
        Guard::Request => !forbidden_header_name(n),
        Guard::RequestNoCors => cors_safelisted_request_header(n, v),
        Guard::Response => !(bytes_matches(n, "set-cookie") || bytes_matches(n, "set-cookie2")),
        _ => true,
    }
}

pub open spec fn pairs_view(v: Seq<(Vec<u8>, Vec<u8>)>) -> Entries {
    v.map_values(|p: (Vec<u8>, Vec<u8>)| (p.0@, p.1@))
}

fn copy_pairs(init: &HeadersInit) -> (r: Result<Vec<(Vec<u8>, Vec<u8>)>, HeaderError>)
    ensures
        match init_entries(*init) {
            Ok(e) => r matches Ok(v) && pairs_view(v@) == e,
            Err(err) => r == Err::<Vec<(Vec<u8>, Vec<u8>)>, HeaderError>(err),
        },
{
    let mut out: Vec<(Vec<u8>, Vec<u8>)> = Vec::new();
    match init {
        HeadersInit::Headers(list) => {
            let mut i: usize = 0;
            while i < list.entries.len()
                invariant
                    i <= list.entries@.len(),
                    pairs_view(out@) == list.entries_view().take(i as int),
                decreases list.entries@.len() - i,
            {
                let h = &list.entries[i];
                let a = copy_bytes(h.name.as_slice());
                let b = copy_bytes(h.value.as_slice());
                assert((a@, b@) == list.entries_view()[i as int]);
                let ghost before = out@;
                out.push((a, b));
                assert(pairs_view(out@) =~= pairs_view(before).push((a@, b@)));
                i = i + 1;
                assert(pairs_view(out@) =~= list.entries_view().take(i as int));
            }
            assert(pairs_view(out@) =~= list.entries_view());
        },
        HeadersInit::Pairs(pairs) => {
            let mut i: usize = 0;
            while i < pairs.len()
                invariant
                    *init == HeadersInit::Pairs(*pairs),
                    i <= pairs@.len(),
                    forall|j: int| 0 <= j < i ==> (#[trigger] pairs@[j])@.len() == 2,
                    pairs_view(out@) == pairs@.take(i as int).map_values(
                        |p: Vec<Vec<u8>>| (p@[0]@, p@[1]@),
                    ),
                decreases pairs@.len() - i,
            {
                let p = &pairs[i];
                if p.len() != 2 {
                    assert(pairs@[i as int]@.len() != 2);
                    assert(init_entries(*init) is Err);
                    return Err(HeaderError::MalformedPair);
                }
                let a = copy_bytes(p[0].as_slice());
                let b = copy_bytes(p[1].as_slice());
                let ghost before = out@;
                out.push((a, b));
                assert(pairs_view(out@) =~= pairs_view(before).push((a@, b@)));
                assert(pairs@.take(i + 1) =~= pairs@.take(i as int).push(pairs@[i as int]));
                i = i + 1;
                assert(pairs_view(out@) =~= pairs@.take(i as int).map_values(
                    |p: Vec<Vec<u8>>| (p@[0]@, p@[1]@),
                ));
            }
            assert(pairs@.take(i as int) =~= pairs@);
        },
        HeadersInit::Record(rec) => {
            let mut i: usize = 0;
            while i < rec.len()
                invariant
                    i <= rec@.len(),
                    pairs_view(out@) == pairs_view(rec@.take(i as int)),
                decreases rec@.len() - i,
            {
                let p = &rec[i];
                let a = copy_bytes(p.0.as_slice());
                let b = copy_bytes(p.1.as_slice());
                let ghost before = out@;
                out.push((a, b));
                assert(pairs_view(out@) =~= pairs_view(before).push((a@, b@)));
                assert(rec@.take(i + 1) =~= rec@.take(i as int).push(rec@[i as int]));
                i = i + 1;
                assert(pairs_view(out@) =~= pairs_view(rec@.take(i as int)));
            }
            assert(rec@.take(i as int) =~= rec@);
        },
    }
    Ok(out)
}

impl HeaderList {
    /// An empty list with guard `guard`.
    pub fn new(guard: Guard) -> (r: HeaderList)
        ensures
            r.entries_view() == Seq::<(Seq<u8>, Seq<u8>)>::empty(),
            r.spec_guard() == guard,
    {
        let r = HeaderList { entries: Vec::new(), guard };
        assert(r.entries_view() =~= Seq::<(Seq<u8>, Seq<u8>)>::empty());
        r
    }

    pub fn get_guard(&self) -> (r: Guard)
        ensures
            r == self.spec_guard(),
    {
        self.guard
    }

    pub fn set_guard(&mut self, guard: Guard)
        ensures
            final(self).spec_guard() == guard,
            final(self).entries_view() == old(self).entries_view(),
    {
        self.guard = guard;
    }

    /// Removes every header; the guard stays.
    pub fn empty_header_list(&mut self)
        ensures
            final(self).spec_guard() == old(self).spec_guard(),
            final(self).entries_view() == Seq::<(Seq<u8>, Seq<u8>)>::empty(),
    {
        self.entries = Vec::new();
        assert(self.entries_view() =~= Seq::<(Seq<u8>, Seq<u8>)>::empty());
    }

    /// The headers, as (name, value) pairs.
    pub fn entries(&self) -> (r: Vec<(Vec<u8>, Vec<u8>)>)
        ensures
            pairs_view(r@) == self.entries_view(),
    {
        let mut out: Vec<(Vec<u8>, Vec<u8>)> = Vec::new();
        let mut i: usize = 0;
        while i < self.entries.len()
            invariant
                i <= self.entries@.len(),
                pairs_view(out@) == self.entries_view().take(i as int),
            decreases self.entries@.len() - i,
        {
            let h = &self.entries[i];
            let a = copy_bytes(h.name.as_slice());
            let b = copy_bytes(h.value.as_slice());
            let ghost before = out@;
            out.push((a, b));
            assert(pairs_view(out@) =~= pairs_view(before).push((a@, b@)));
            i = i + 1;
            assert(pairs_view(out@) =~= self.entries_view().take(i as int));
        }
        assert(pairs_view(out@) =~= self.entries_view());
        out
    }

    /// An independent copy of the list: same headers, same guard.
    pub fn copy(&self) -> (r: HeaderList)
        ensures
            r.entries_view() == self.entries_view(),
            r.spec_guard() == self.spec_guard(),
    {
        let mut out: Vec<Header> = Vec::new();
        let mut i: usize = 0;
        while i < self.entries.len()
            invariant
                i <= self.entries@.len(),
                out@.map_values(|h: Header| header_view(h)) == self.entries_view().take(i as int),
            decreases self.entries@.len() - i,
        {
            let h = &self.entries[i];
            let a = copy_bytes(h.name.as_slice());
            let b = copy_bytes(h.value.as_slice());
            let ghost before = out@;
            out.push(Header { name: a, value: b });
            assert(out@.map_values(|h: Header| header_view(h)) =~= before.map_values(
                |h: Header| header_view(h),
            ).push((a@, b@)));
            i = i + 1;
            assert(out@.map_values(|h: Header| header_view(h)) =~= self.entries_view().take(i as int));
        }
        let r = HeaderList { entries: out, guard: self.guard };
        assert(r.entries_view() =~= self.entries_view());
        r
    }

    /// Appends the header `name: value`, subject to the guard.
    pub fn append(&mut self, name: &[u8], value: &[u8]) -> (r: Result<(), HeaderError>)
        ensures
            final(self).spec_guard() == old(self).spec_guard(),
            match append_spec(old(self).spec_guard(), old(self).entries_view(), name@, value@) {
                Ok(e) => r is Ok && final(self).entries_view() == e,
                Err(err) => r == Err::<(), HeaderError>(err) && final(self).entries_view()
                    == old(self).entries_view(),
            },
    {
        if !is_valid_name(name) {
            return Err(HeaderError::InvalidName);
        }
        if !is_valid_value(value) {
            return Err(HeaderError::InvalidValue);
        }
        if self.guard == Guard::Immutable {
            return Err(HeaderError::Immutable);
        }
        if guard_admits(self.guard, name, value) {
            let h = Header { name: to_lower(name), value: copy_bytes(value) };
            self.entries.push(h);
            assert(self.entries_view() =~= old(self).entries_view().push((lower(name@), value@)));
        }
        Ok(())
    }

    /// Appends each header that `init` holds, in order, stopping at the first
    /// that is refused.
    pub fn fill(&mut self, init: &HeadersInit) -> (r: Result<(), HeaderError>)
        ensures
            final(self).spec_guard() == old(self).spec_guard(),
            match init_entries(*init) {
                Err(err) => r == Err::<(), HeaderError>(err),
                Ok(src) => match fill_spec(old(self).spec_guard(), old(self).entries_view(), src) {
                    Ok(e) => r is Ok && final(self).entries_view() == e,
                    Err(err) => r == Err::<(), HeaderError>(err),
                },
            },
    {
        let pairs = match copy_pairs(init) {
            Ok(p) => p,
            Err(e) => return Err(e),
        };
        let ghost src = pairs_view(pairs@);
        let ghost g = self.guard;
        let ghost e0 = self.entries_view();
        let mut i: usize = 0;
        while i < pairs.len()
            invariant
                i <= pairs@.len(),
                src == pairs_view(pairs@),
                init_entries(*init) == Ok::<Entries, HeaderError>(src),
                g == old(self).spec_guard(),
                e0 == old(self).entries_view(),
                self.spec_guard() == g,
                fill_spec(g, e0, src.take(i as int)) == Ok::<Entries, HeaderError>(
                    self.entries_view(),
                ),
            decreases pairs@.len() - i,
        {
            assert(src.take(i + 1).drop_last() =~= src.take(i as int));
            let res = self.append(pairs[i].0.as_slice(), pairs[i].1.as_slice());
            assert(src.take(i + 1).last() == (pairs@[i as int].0@, pairs@[i as int].1@));
            if let Err(e) = res {
                assert(fill_spec(g, e0, src.take(i + 1)) == Err::<Entries, HeaderError>(e));
                proof {
                    lemma_fill_err_extends(g, e0, src, i + 1);
                }
                return Err(e);
            }
            i = i + 1;
        }
        assert(src.take(i as int) =~= src);
        Ok(())
    }

    /// Whether a header named `name` (in any case) is present.
    pub fn has(&self, name: &[u8]) -> (r: bool)
        ensures
            r == exists|i: int|
                0 <= i < self.entries_view().len() && (#[trigger] self.entries_view()[i]).0
                    == lower(name@),
    {
        let n = to_lower(name);
        let mut i: usize = 0;
        while i < self.entries.len()
            invariant
                i <= self.entries@.len(),
                n@ == lower(name@),
                forall|j: int| 0 <= j < i ==> (#[trigger] self.entries_view()[j]).0 != n@,
            decreases self.entries@.len() - i,
        {
            if bytes_equal(self.entries[i].name.as_slice(), n.as_slice()) {
                assert(self.entries_view()[i as int].0 == n@);
                return true;
            }
            i = i + 1;
        }
        false
    }

    /// The media type of the first `content-type` header; nothing where there
    /// is none or its value does not parse.
    pub fn extract_mime_type(&self) -> (r: Vec<u8>)
        ensures
            r@ == match first_value(self.entries_view(), content_type_name()) {
                Some(v) => media_type_of(v),
                None => Seq::<u8>::empty(),
            },
    {
        let n = content_type_bytes();
        let ghost e = self.entries_view();
        let mut i: usize = 0;
        assert(e.subrange(0, e.len() as int) =~= e);
        while i < self.entries.len()
            invariant
                i <= self.entries@.len(),
                e == self.entries_view(),
                n@ == content_type_name(),
                first_value(e, n@) == first_value(e.subrange(i as int, e.len() as int), n@),
            decreases self.entries@.len() - i,
        {
            let ghost rest = e.subrange(i as int, e.len() as int);
            assert(rest.drop_first() =~= e.subrange(i + 1, e.len() as int));
            assert(rest[0] == e[i as int]);
            if bytes_equal(self.entries[i].name.as_slice(), n.as_slice()) {
                return parse_media_type(self.entries[i].value.as_slice());
            }
            i = i + 1;
        }
        Vec::new()
    }
}

/// A space or a tab.
pub open spec fn is_ows(b: u8) -> bool {
    b == 32 || b == 9
}

/// Every byte of `v` in `[a, b)` may stand in a token.
pub open spec fn tokens_between(v: Seq<u8>, a: int, b: int) -> bool {
    forall|k: int| a <= k < b ==> is_token_byte(#[trigger] v[k])
}

/// At `e` the value ends, or spaces and tabs lead to the `;` that opens the
/// parameters.
pub open spec fn params_start(v: Seq<u8>, e: int) -> bool {
    e == v.len() || exists|m: int|
        e <= m < v.len() && v[m] == 59 && forall|k: int| e <= k < m ==> is_ows(#[trigger] v[k])
}

/// `v` is a media type: a type token, `/`, a subtype token, then either
/// nothing or parameters after a `;`.
pub open spec fn is_media_type(v: Seq<u8>) -> bool {
    exists|s: int, e: int|
        0 < s && s + 1 < e <= v.len() && #[trigger] v[s] == 47 && tokens_between(v, 0, s)
            && tokens_between(v, s + 1, e) && #[trigger] params_start(v, e)
}

/// The media type that a header value gives: the value where it parses as
/// one, else nothing.
pub open spec fn media_type_of(v: Seq<u8>) -> Seq<u8> {
    if is_media_type(v) {
        v
    } else {
        Seq::empty()
    }
}

fn is_token(b: u8) -> (r: bool)
    ensures
        r == is_token_byte(b),
{
    (48 <= b && b <= 57) || (65 <= b && b <= 90) || (97 <= b && b <= 122) || b == 33 || b == 35
        || b == 36 || b == 37 || b == 38 || b == 39 || b == 42 || b == 43 || b == 45 || b == 46
        || b == 94 || b == 95 || b == 96 || b == 124 || b == 126
}

/// Parses a header value as a media type: the value where it is one, an
/// empty value where it is not.
pub fn parse_media_type(v: &[u8]) -> (r: Vec<u8>)
    ensures
        r@ == media_type_of(v@),
{
    let n = v.len();
    let mut i: usize = 0;
    while i < n && is_token(v[i])
        invariant
            n == v@.len(),
            i <= n,
            tokens_between(v@, 0, i as int),
        decreases n - i,
    {
        i = i + 1;
    }
    let mut j: usize = if i < n {
        i + 1
    } else {
        n
    };
    while j < n && is_token(v[j])
        invariant
            n == v@.len(),
            i < n ==> i + 1 <= j,
            i >= n ==> j == n,
            j <= n,
            tokens_between(v@, i + 1, j as int),
        decreases n - j,
    {
        j = j + 1;
    }
    let mut k: usize = j;
    while k < n && (v[k] == 32 || v[k] == 9)
        invariant
            n == v@.len(),
            j <= k <= n,
            forall|x: int| j <= x < k ==> is_ows(#[trigger] v@[x]),
        decreases n - k,
    {
        k = k + 1;
    }
    let ok = i > 0 && i < n && v[i] == 47 && j > i + 1 && (j == n || (k < n && v[k] == 59));
    proof {
        if ok {
            if j < n {
                assert(params_start(v@, j as int));
            }
            assert(v@[i as int] == 47);
            assert(params_start(v@, j as int));
            assert(is_media_type(v@));
        } else {
            if is_media_type(v@) {
                let (s, e) = choose|s: int, e: int|
                    0 < s && s + 1 < e <= v@.len() && #[trigger] v@[s] == 47 && tokens_between(
                        v@,
                        0,
                        s,
                    ) && tokens_between(v@, s + 1, e) && #[trigger] params_start(v@, e);
                assert(!is_token_byte(47u8));
                if s < i {
                    assert(is_token_byte(v@[s]));
                }
                if s > i {
                    assert(is_token_byte(v@[i as int]));
                }
                assert(s == i);
                if e < j {
                    assert(is_token_byte(v@[e]));
                    if e < n {
                        let m = choose|m: int|
                            e <= m < v@.len() && v@[m] == 59 && forall|x: int|
                                e <= x < m ==> is_ows(#[trigger] v@[x]);
                        if m > e {
                            assert(is_ows(v@[e]));
                        }
                    }
                }
                if e > j {
                    assert(is_token_byte(v@[j as int]));
                }
                assert(e == j);
                if j < n {
                    let m = choose|m: int|
                        j <= m < v@.len() && v@[m] == 59 && forall|x: int|
                            j <= x < m ==> is_ows(#[trigger] v@[x]);
                    if m < k {
                        assert(is_ows(v@[m]));
                    }
                    if m > k {
                        assert(is_ows(v@[k as int]));
                    }
                }
            }
        }
    }
    if ok {
        copy_bytes(v)
    } else {
        Vec::new()
    }
}

/// The name `content-type`, in bytes.
pub open spec fn content_type_name() -> Seq<u8> {
    seq![99u8, 111, 110, 116, 101, 110, 116, 45, 116, 121, 112, 101]
}

pub(crate) fn content_type_bytes() -> (r: Vec<u8>)
    ensures
        r@ == content_type_name(),
{
    let r: Vec<u8> = vec![99u8, 111, 110, 116, 101, 110, 116, 45, 116, 121, 112, 101];
    assert(r@ =~= content_type_name());
    r
}

proof fn lemma_fill_err_extends(g: Guard, e0: Entries, src: Entries, k: int)
    requires
        0 <= k <= src.len(),
        fill_spec(g, e0, src.take(k)) is Err,
    ensures
        fill_spec(g, e0, src) == fill_spec(g, e0, src.take(k)),
    decreases src.len() - k,
{
    if k < src.len() {
        assert(src.take(k + 1).drop_last() =~= src.take(k));
        lemma_fill_err_extends(g, e0, src, k + 1);
    } else {
        assert(src.take(k) =~= src);
    }
}

} // verus!
