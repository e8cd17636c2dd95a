//! Transport layer for real-time simulations: a shared outbound queue, the
//! delivery requirements a message can ask for, and the decisions of a packet
//! backend and of a stream backend, each stated and proved over plain values.
//! The socket calls themselves are made by the host, which hands the outcome of
//! each call back to the functions here.
pub mod addr;
pub mod events;
pub mod input;
pub mod laminar;
pub mod message;
pub mod requirements;
pub mod tcp;
pub mod transport;
