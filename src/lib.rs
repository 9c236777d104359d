//! Verified core of a bridge that republishes still image frames as an
//! outbound network video stream.
//!
//! * [`frame`] turns an encoded payload into an RGBA pixel buffer.
//! * [`session`] owns the single outbound stream handle.
//! * [`state`] holds the shared publishing state and the decisions of the
//!   four commands that drive it.

pub mod frame;
pub mod session;
pub mod state;
