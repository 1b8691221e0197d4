use vstd::prelude::*;

verus! {

/// An addressed message unit moved between bus endpoints. The payload is
/// carried, never interpreted.
#[derive(Clone, Debug, PartialEq, Eq)]
pub struct Envelope {
    /// Bus address of the endpoint the envelope is meant for.
    pub destination: u32,
    /// Opaque message bytes.
    pub payload: Vec<u8>,
}

} // verus!
