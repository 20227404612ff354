//! The dispatch state machine.
//!
//! One entry point takes a device and one packet, decides by the packet's
//! major code which handler operation to invoke — gating a control operation
//! on the device type embedded in its control code — runs the handler, and
//! finalizes the packet exactly once, whatever the outcome. A protocol
//! mismatch (unrecognized major code, or a control code aimed at another
//! device type) is rejected with an invalid-parameter error before any
//! handler runs.

use vstd::pervasive::unreached;
use vstd::prelude::*;

use crate::device::{
    returned_request, Completion, Device, DeviceOperations, DeviceType, RequestError,
};
use crate::error::{Error, STATUS_INVALID_PARAMETER, STATUS_SUCCESS};
use crate::host::HostEvent;
use crate::request::{
    completed_irp, control_code_spec, IoControlRequest, IoRequest, Irp, ReadRequest, StackParameters,
    WriteRequest, IRP_MJ_CLEANUP, IRP_MJ_CLOSE, IRP_MJ_CREATE, IRP_MJ_DEVICE_CONTROL, IRP_MJ_READ,
    IRP_MJ_WRITE,
};
use crate::ioctl::ControlCode;

verus! {

/// What the state machine does with one packet: invoke one handler
/// operation, or reject the packet before any handler runs.
#[derive(Copy, Clone, Debug, PartialEq, Eq, Structural)]
pub enum DispatchAction {
    InvokeCreate,
    InvokeClose,
    InvokeCleanup,
    InvokeRead,
    InvokeWrite,
    InvokeIoctl,
    /// A control operation whose embedded device type differs from the
    /// device's own: rejected with an invalid-parameter error.
    RejectDeviceTypeMismatch,
    /// A major code outside the recognized set: rejected with an
    /// invalid-parameter error.
    RejectUnrecognized,
}

/// The decision the state machine takes for a packet aimed at a device of
/// the given type. A device-control packet invokes the handler exactly when
/// the device type embedded in its control code equals the device's own;
/// every major code outside the recognized six is rejected.
pub open spec fn route_spec(device_type: DeviceType, irp: Irp) -> DispatchAction {
    if irp.stack.major == IRP_MJ_CREATE {
        DispatchAction::InvokeCreate
    } else if irp.stack.major == IRP_MJ_CLOSE {
        DispatchAction::InvokeClose
    } else if irp.stack.major == IRP_MJ_CLEANUP {
        DispatchAction::InvokeCleanup
    } else if irp.stack.major == IRP_MJ_READ {
        DispatchAction::InvokeRead
    } else if irp.stack.major == IRP_MJ_WRITE {
        DispatchAction::InvokeWrite
    } else if irp.stack.major == IRP_MJ_DEVICE_CONTROL {
        if control_code_spec(irp).device_type == device_type {
            DispatchAction::InvokeIoctl
        } else {
            DispatchAction::RejectDeviceTypeMismatch
        }
    } else {
        DispatchAction::RejectUnrecognized
    }
}

/// Decides what to do with one packet aimed at a device of the given type
/// (see [`route_spec`]).
pub fn route(device_type: DeviceType, irp: &Irp) -> (r: DispatchAction)
    requires
        irp.wf(),
    ensures
        r == route_spec(device_type, *irp),
{
    let major = irp.stack.major;
    if major == IRP_MJ_CREATE {
        DispatchAction::InvokeCreate
    } else if major == IRP_MJ_CLOSE {
        DispatchAction::InvokeClose
    } else if major == IRP_MJ_CLEANUP {
        DispatchAction::InvokeCleanup
    } else if major == IRP_MJ_READ {
        DispatchAction::InvokeRead
    } else if major == IRP_MJ_WRITE {
        DispatchAction::InvokeWrite
    } else if major == IRP_MJ_DEVICE_CONTROL {
        let code = match &irp.stack.parameters {
            StackParameters::DeviceIoControl { io_control_code, .. } => *io_control_code,
            _ => unreached(),
        };
        if ControlCode::decode(code).device_type() == device_type {
            DispatchAction::InvokeIoctl
        } else {
            DispatchAction::RejectDeviceTypeMismatch
        }
    } else {
        DispatchAction::RejectUnrecognized
    }
}

/// Dispatches one packet to a device's handler and finalizes it.
///
/// The packet is finalized exactly once on every path: exactly one
/// completion event is handed to the host, carrying the returned status and
/// the byte count written into the packet's status block. The returned
/// packet is the dispatched packet with only its status block and completion
/// flag updated; the returned status is the status written into the block,
/// and a non-success status always pairs with a zero byte count. A rejected
/// packet — an unrecognized major code, or a control code whose embedded
/// device type differs from the device's own — is finalized with an
/// invalid-parameter error and the device, handler state included, is left
/// untouched.
pub fn dispatch_device<T: DeviceOperations>(
    device: &mut Device<T>,
    request: IoRequest,
    log: &mut Vec<HostEvent>,
) -> (r: (u32, Irp))
    requires
        old(device).wf(),
        request.irp.wf(),
        !request.irp.completed,
    ensures
        final(device).wf(),
        final(device).extension.device_type == old(device).extension.device_type,
        final(device).flags == old(device).flags,
        r.1.completed,
        r.1.io_status.status == r.0,
        r.0 != STATUS_SUCCESS ==> r.1.io_status.information == 0,
        r.1 == (Irp { io_status: r.1.io_status, completed: true, ..request.irp }),
        final(log)@ == old(log)@.push(HostEvent::CompleteRequest {
            status: r.0,
            information: r.1.io_status.information,
        }),
        route_spec(old(device).extension.device_type, request.irp)
            == DispatchAction::RejectUnrecognized ==> r.0 == STATUS_INVALID_PARAMETER
            && *final(device) == *old(device),
        route_spec(old(device).extension.device_type, request.irp)
            == DispatchAction::RejectDeviceTypeMismatch ==> r.0 == STATUS_INVALID_PARAMETER
            && *final(device) == *old(device),
{
    let device_type = device.device_type();
    let info = device.info();
    let action = route(device_type, &request.irp);
    let data = device.data_mut();
    let result: Result<Completion, RequestError> = match action {
        DispatchAction::InvokeCreate => data.create(&info, request),
        DispatchAction::InvokeClose => data.close(&info, request),
        DispatchAction::InvokeCleanup => data.cleanup(&info, request),
        DispatchAction::InvokeRead => data.read(&info, ReadRequest { inner: request }),
        DispatchAction::InvokeWrite => data.write(&info, WriteRequest { inner: request }),
        DispatchAction::InvokeIoctl => data.ioctl(&info, IoControlRequest { inner: request }),
        DispatchAction::RejectDeviceTypeMismatch => Err(
            RequestError(Error::from_ntstatus(STATUS_INVALID_PARAMETER), request),
        ),
        DispatchAction::RejectUnrecognized => Err(
            RequestError(Error::from_ntstatus(STATUS_INVALID_PARAMETER), request),
        ),
    };
    match result {
        Ok(Completion::Complete(size, req)) => {
            let irp = req.complete(Ok(size), log);
            (STATUS_SUCCESS, irp)
        },
        Err(RequestError(e, req)) => {
            let status = e.to_ntstatus();
            let irp = req.complete(Err(e), log);
            (status, irp)
        },
    }
}

} // verus!
