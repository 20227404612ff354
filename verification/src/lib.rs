//! A verified model of a kernel I/O dispatch layer.
//!
//! The crate models the path an I/O request packet takes between a host I/O
//! manager and a driver-supplied handler: status codes ([`error`]), the 32-bit
//! control-code encoding ([`ioctl`]), capability-tagged buffer views
//! ([`user_ptr`]), typed request views over a packet ([`request`]), the
//! device/extension model with its handler table ([`device`]), the dispatch
//! state machine ([`dispatch`]), and the device factory ([`driver`]).
//! Interactions that cross back into the host (completing a packet, releasing
//! handler state, deleting a device) are recorded as [`host`] events, so that
//! the completion and lifecycle guarantees are stated in the contracts.

pub mod allocator;
pub mod device;
pub mod dispatch;
pub mod driver;
pub mod error;
pub mod host;
pub mod ioctl;
pub mod request;
pub mod string;
pub mod user_ptr;
