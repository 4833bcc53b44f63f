//! An opaque string-handle library: immutable, reference-counted text values
//! behind integer handles, with lossy UTF-16 and UTF-8 construction, raw byte
//! access, and wildcard comparison through an injected collaborator.

pub mod decode;
pub mod matcher;
pub mod range;
pub mod table;
