use vstd::prelude::*;

use crate::addr::PeerAddr;
use crate::requirements::DeliveryRequirement;

verus! {

/// An outbound message: where it goes, its opaque bytes, and the delivery it
/// asks for.
#[derive(Debug)]
pub struct Message {
    pub destination: PeerAddr,
    pub payload: Vec<u8>,
    pub delivery: DeliveryRequirement,
}

impl Message {
    pub fn new(destination: PeerAddr, payload: Vec<u8>, delivery: DeliveryRequirement) -> (r:
        Message)
        ensures
            r.destination == destination,
            r.payload@ == payload@,
            r.delivery == delivery,
    {
        Message { destination, payload, delivery }
    }
}

} // verus!
