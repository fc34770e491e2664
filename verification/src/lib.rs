//! Client-side protocol logic for a NAS web API: capability discovery and
//! version negotiation, session login/logout, share resolution, multipart
//! upload request construction with a collision-avoiding filename, and a
//! layered, namespace-scoped decoding of the vendor's numeric error codes.

pub mod api;
pub mod decode;
pub mod envelope;
pub mod error;
pub mod json;
pub mod share;
pub mod stamp;
pub mod flow;
