//! A verified model of a GPU driver session: driver start-up, contexts,
//! streams, device buffers and kernel dispatch. Every driver call is made by
//! the caller; this library decides what to call, with which arguments, and
//! what each returned status means.
pub mod status;
pub mod context;
pub mod buffer;
pub mod stream;
pub mod transfer;
