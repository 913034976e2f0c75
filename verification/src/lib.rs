//! AdaTP protocol core: packet codec, AEAD cipher, key schedule, secure
//! session, framed reader, and handshake orchestration, together with the
//! server-side bookkeeping types that sit on top of them.

pub mod auth;
pub mod clock;
pub mod codec;
pub mod config;
pub mod crypto;
pub mod ed25519;
pub mod framing;
pub mod handshake;
pub mod kdf;
pub mod metrics;
pub mod rng;
pub mod session;
pub mod wire;
pub mod x25519;

pub use codec::MessageType;
pub use codec::Packet;
pub use codec::PacketFlags;
pub use codec::PacketHeader;
