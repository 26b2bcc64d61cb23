//! Resolver for the canonical sender identity of an outbound cross-chain
//! token-transfer-with-payload message.
//!
//! The resolver takes an already-authenticated caller key and an optional
//! invoking-program identifier, and produces the 32-byte external address
//! that attributes the transfer on the destination chain. When a program
//! identifier is given, the caller must be that program's derived sender
//! authority; otherwise resolution fails, so a caller can never claim
//! another program's identity.

pub mod address;
pub mod derivation;
pub mod resolver;

pub use address::ExternalAddress;
pub use address::SenderError;
pub use resolver::new_sender_address;
