//! Shared virtual-gamepad input state and the connection-session protocol
//! that mutates it: a text wire format discriminated by character count and
//! a leading tag, a per-frame session step, and a lock-guarded shared record
//! read back as a flat snapshot.

pub mod session;
pub mod shared;
pub mod state;

pub use shared::InputState;
pub use state::Input;
