//! Client side of a DERP-style relay: frame codec, handshake state machine,
//! payload cryptography, the engine that couples them, and the Ethernet shim
//! that a guest machine talks to.

pub mod bytes;
pub mod crypto;
pub mod error;
pub mod frame;
pub mod network;
pub mod peers;
pub mod protocol;
pub mod vm_network;
