//! A small binding layer around one native hardware query.
//!
//! The library resolves the system's default audio device for an input or an
//! output scope by reading one fixed-size property of the system audio
//! object, and maps the raw outcome of that native read — a status code, a
//! written byte count and the output buffer — to a typed result. A second,
//! unrelated helper strips the sign from an integer, optionally doubling it.
//!
//! The native call itself is the caller's affair: the caller performs it and
//! hands its outcome back as a [`sys::PropertyDataReply`]. Everything that
//! decides — which address belongs to which scope, when a status code, a
//! mismatched size or the sentinel "unknown" object id is an error, and what
//! value a successful read yields — lives here and is verified.

pub mod sign;
pub mod sys;
pub mod utils;
