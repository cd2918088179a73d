//! Readiness-based I/O event notification: the decision layer of the Hermit
//! backend. Every native step is described as a [`native::NativeCall`] value;
//! the functions here decide which call comes next and what the caller sees,
//! from the replies the native layer hands back.
pub mod event;
pub mod events;
pub mod interest;
pub mod native;
pub mod selector;
pub mod tcp;
pub mod waker;
