//! Incremental encoder for Open Sound Control 1.0 messages.
//!
//! An [`OscMessage`] owns one contiguous byte buffer that is, at every
//! moment, the complete datagram: the address, the type tag string and the
//! argument payloads, each aligned to four bytes. Appending an argument
//! edits that buffer in place instead of serialising the message again.
//!
//! ```text
//! let mut msg = OscMessage::new("/foo");
//! msg.add(Arg::String("bar"))?;
//! msg.add(Arg::F32(3.14f32.to_bits()))?;
//! msg.add(Arg::I32(42))?;
//! socket.send(msg.get_bytes())?;
//! ```
//!
//! Bundles are not supported, and a message is append-only: arguments
//! cannot be changed or removed, nor the address renamed.

pub mod arg;
pub mod dump;
pub mod laws;
pub mod message;
pub mod rebuild;
pub mod wire;

pub use arg::{encode, Arg, ArgValue, OscError, TypeTag};
pub use message::{MessageView, OscMessage};
pub use rebuild::serialize;
