//! Construction and normalization of fetch request descriptors.
pub mod body;
pub mod headers;
pub mod method;
pub mod request;
pub mod urls;
