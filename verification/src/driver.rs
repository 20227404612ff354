//! The device factory.
//!
//! A driver object creates devices: it converts the device name to the
//! host's UTF-16 representation, asks the host for a device object, and on
//! success installs the extension block — the device-type tag and the
//! caller's handler state — exactly once, binding the handler's operations
//! to the device for its whole lifetime.

use vstd::pervasive::unreached;
use vstd::prelude::*;

use crate::device::{
    device_type_code, Access, Device, DeviceDoFlags, DeviceExtension, DeviceFlags,
    DeviceOperations, DeviceType,
};
use crate::error::{Error, STATUS_SUCCESS};
use crate::host::HostEvent;
use crate::string::{create_unicode_from_str, has_no_nul, utf16_of};

verus! {

/// A driver object, standing for the host handle device creation goes
/// through.
#[derive(Debug)]
pub struct Driver {}

impl Driver {
    /// A driver object.
    pub fn new() -> Driver {
        Driver {}
    }

    /// Creates a device with the given name, type, flags and handler state.
    ///
    /// The name is converted to the host's UTF-16 representation and the
    /// creation call is handed to the host; `create_status` is the status
    /// the host answered. A non-success status surfaces as the typed error
    /// wrapping it, and the handler state is dropped. On success the device
    /// owns its extension block, holding the device-type tag and the handler
    /// state, and carries the requested I/O flags.
    pub fn create_device<T: DeviceOperations>(
        &mut self,
        name: &str,
        device_type: DeviceType,
        device_flags: DeviceFlags,
        device_do_flags: DeviceDoFlags,
        access: Access,
        data: T,
        create_status: u32,
        log: &mut Vec<HostEvent>,
    ) -> (r: Result<Device<T>, Error>)
        requires
            has_no_nul(name@),
            name@.len() <= 0x3FFF,
        ensures
            final(log)@ == old(log)@.push(HostEvent::CreateDevice {
                name_length: (2 * utf16_of(name@).len()) as u16,
                device_type_code: device_type_code(device_type),
                flags: device_flags.bits,
                exclusive: access is Exclusive,
            }),
            create_status == STATUS_SUCCESS <==> r is Ok,
            r matches Ok(d) ==> d.wf() && d.flags == device_do_flags.bits
                && d.extension.device_type == device_type && d.extension.data == Some(data),
            r matches Err(e) ==> e.0 == create_status,
    {
        let name_u = match create_unicode_from_str(name) {
            Some(u) => u,
            None => unreached(),
        };
        log.push(HostEvent::CreateDevice {
            name_length: name_u.length,
            device_type_code: device_type.to_u32(),
            flags: device_flags.bits(),
            exclusive: access.is_exclusive(),
        });
        if create_status != STATUS_SUCCESS {
            return Err(Error::from_ntstatus(create_status));
        }
        Ok(Device { flags: device_do_flags.bits(), extension: DeviceExtension { device_type, data: Some(data) } })
    }
}

} // verus!
