//! Verified core of the `srvcs-crossproduct` service: the 3D cross product
//! `a × b` composed from the `srvcs-floatmultiply` and `srvcs-floatsubtract`
//! primitives.
//!
//! The service does no arithmetic of its own. The library decides, step by
//! step, which primitive to call with which operands, how each dependency's
//! answer is classified, and which HTTP response ends the request. The HTTP
//! plumbing and JSON (de)serialisation live outside the library.

pub mod api;
pub mod evaluation;
pub mod laws;
pub mod apidoc;
