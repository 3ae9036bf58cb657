//! A typed, verified safety layer for a vendor lighting SDK.
//!
//! The vendor library is a stateful, process-wide singleton driven through a
//! C-style call surface.  This crate wraps that surface in a closed, validated
//! vocabulary (keys, colors, device types), an ownership-bearing session
//! handle that makes "call before initialize" and "call after shutdown"
//! unrepresentable, and typed configuration-option accessors.  The raw call
//! surface itself is abstracted as the [`port::SdkPort`] trait, whose
//! implementations perform the actual calls; every operation's contract
//! states exactly which raw call it performs and how the collaborator's
//! answer is surfaced.

pub mod bitmap;
pub mod color;
pub mod fault;
pub mod keys;
pub mod lighting;
pub mod port;
pub mod session;
pub mod sim;

pub use bitmap::BITMAP_SIZE;
pub use color::Color;
pub use color::DeviceType;
pub use fault::Fault;
pub use fault::Op;
pub use keys::Key;
pub use port::SdkPort;
pub use session::init;
pub use session::init_with_name;
pub use session::Sdk;
pub use sim::SimPort;
