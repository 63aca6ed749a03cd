//! A bridge for running an untrusted, pre-compiled sandboxed component
//! synchronously: an opaque, dynamically typed execution request is decoded
//! into a typed request, a per-call sandbox session walks through
//! construction, loading, instantiation and invocation of the guest, and the
//! outcome is encoded back as an opaque host-facing value.
//!
//! Every call is self-contained: it builds and tears down its own sandbox,
//! shares nothing with other calls, and concludes with exactly one of a
//! success value or an error value.

pub mod bridge;
pub mod buffer;
pub mod decode;
pub mod encode;
pub mod host_value;
pub mod outcome;
pub mod request;
pub mod session;
pub mod text;
