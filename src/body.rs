//! Bodies supplied by a caller, and the bytes and content type drawn from them.
use vstd::prelude::*;
use vstd::utf8::encode_utf8;

verus! {

/// A body value that a caller may hand to a request.
#[derive(Debug)]
pub enum BodyInit {
    /// Text, sent as UTF-8.
    Text(String),
    /// Raw bytes, with no type of their own.
    Bytes(Vec<u8>),
    /// A blob: its bytes and its type, which may be empty.
    Blob(Vec<u8>, String),
    /// Form parameters, already serialized as `application/x-www-form-urlencoded`.
    UrlSearchParams(String),
}

/// A body once drawn from its value: the bytes, and the content type that
/// the value implies, if any.
#[derive(Debug)]
pub struct ExtractedBody {
    pub bytes: Vec<u8>,
    pub content_type: Option<String>,
}

pub open spec fn text_content_type() -> Seq<char> {
    "text/plain;charset=UTF-8"@
}

pub open spec fn form_content_type() -> Seq<char> {
    "application/x-www-form-urlencoded;charset=UTF-8"@
}

/// The bytes of a body value.
pub open spec fn body_bytes(b: BodyInit) -> Seq<u8> {
    match b {
        BodyInit::Text(s) => encode_utf8(s@),
        BodyInit::Bytes(v) => v@,
        BodyInit::Blob(v, _) => v@,
        BodyInit::UrlSearchParams(s) => encode_utf8(s@),
    }
}

/// The content type that a body value implies.
pub open spec fn body_content_type(b: BodyInit) -> Option<Seq<char>> {
    match b {
        BodyInit::Text(_) => Some(text_content_type()),
        BodyInit::Bytes(_) => None,
        BodyInit::Blob(_, t) => if t@.len() == 0 {
            None
        } else {
            Some(t@)
        },
        BodyInit::UrlSearchParams(_) => Some(form_content_type()),
    }
}

impl BodyInit {
    /// Draws the bytes and the implied content type from the value.
    pub fn extract(&self) -> (r: ExtractedBody)
        ensures
            r.bytes@ == body_bytes(*self),
            match body_content_type(*self) {
                Some(t) => r.content_type matches Some(c) && c@ == t,
                None => r.content_type is None,
            },
    {
        match self {
            BodyInit::Text(s) => ExtractedBody {
                bytes: s.as_str().as_bytes_vec(),
                content_type: Some(String::from_str("text/plain;charset=UTF-8")),
            },
            BodyInit::Bytes(v) => ExtractedBody {
                bytes: crate::headers::copy_bytes(v.as_slice()),
                content_type: None,
            },
            BodyInit::Blob(v, t) => {
                let content_type = if t.as_str().unicode_len() == 0 {
                    None
                } else {
                    Some(t.clone())
                };
                ExtractedBody { bytes: crate::headers::copy_bytes(v.as_slice()), content_type }
            },
            BodyInit::UrlSearchParams(s) => ExtractedBody {
                bytes: s.as_str().as_bytes_vec(),
                content_type: Some(
                    String::from_str("application/x-www-form-urlencoded;charset=UTF-8"),
                ),
            },
        }
    }
}

} // verus!
