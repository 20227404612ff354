//! Events the core hands back to the host.
//!
//! The dispatch and lifecycle paths end in calls into the host: completing a
//! packet, releasing handler state, deleting a device. The model records each
//! such call as an event appended to a log, so a contract can state how often
//! and in which order they happen.

use vstd::prelude::*;

verus! {

/// One call the core made into the host, in the order it was made.
#[derive(Copy, Clone, Debug, PartialEq, Eq, Structural)]
pub enum HostEvent {
    /// The host was asked to create a device object: the byte length of the
    /// converted name, the device-type code, the creation flags, and whether
    /// exclusive access was requested.
    CreateDevice { name_length: u16, device_type_code: u32, flags: u32, exclusive: bool },
    /// A packet was handed to the host completion routine, carrying this
    /// status and byte count in its status block.
    CompleteRequest { status: u32, information: usize },
    /// A device's handler state was reclaimed and destroyed.
    ReleaseInvoked,
    /// The host was asked to delete a device object.
    DeleteDevice,
}

} // verus!
