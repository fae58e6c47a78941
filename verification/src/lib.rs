use vstd::prelude::*;

pub mod client;
pub mod decode;
pub mod model;
pub mod record;
pub mod text;
pub mod wire;

verus! {

/// The failure taxonomy of a lookup: a malformed input rejected before any
/// network activity, a failure of the transport that carries the request, or a
/// response body that could not be decoded into a record.
#[derive(Debug, Clone, PartialEq, Eq)]
pub enum GeoError {
    InvalidRequest,
    TransportError(String),
    DecodeError,
}

} // verus!
