use vstd::prelude::*;

verus! {

/// The guarantee a caller asks for when it queues an outbound message.
///
/// The optional number groups sequenced or ordered messages into streams.
#[derive(Clone, Copy, Debug, PartialEq, Eq, Structural)]
pub enum DeliveryRequirement {
    Unreliable,
    UnreliableSequenced(Option<u8>),
    Reliable,
    ReliableSequenced(Option<u8>),
    ReliableOrdered(Option<u8>),
    /// Reliable and ordered, with no explicit stream.
    Default,
}

} // verus!
