//! Raw link-layer frames as a debuggable byte stream: hex text in and out,
//! regex filtering of received frames, and the pacing and termination rules
//! of the transmit and receive loops.

pub mod filter;
pub mod hexcode;
pub mod receiver;
pub mod sender;
pub mod session;
