use vstd::prelude::*;
use crate::endpoint::Endpoint;

verus! {

/// One unit of transport traffic: a payload and the endpoints it travels
/// between. Never changed once built.
#[derive(Clone, Debug)]
pub struct Datagram {
    pub source: Endpoint,
    pub destination: Endpoint,
    pub payload: Vec<u8>,
}

} // verus!
