//! A bridge between a stream of quantum-gate instructions and the OSC
//! datagrams of a remote device: the typed messages of the protocol, their
//! packet form, and the decisions of the relay loops built on them.

pub mod buffer;
pub mod device;
pub mod layer;
pub mod message;
pub mod packet;
pub mod server;
pub mod wire;

pub use buffer::MitouOscBuffer;
pub use layer::MitouOscLayer;
pub use packet::{Arg, Element, EnvelopeError, Framing, Message, Packet};
