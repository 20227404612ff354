//! The packet model and its typed request views.
//!
//! An [`Irp`] holds, as plain values, what the dispatch layer reads of one
//! in-flight host packet: its flags, its two possible buffer sources, the
//! current stack location with the operation's parameters, and its status
//! block. An [`IoRequest`] wraps one packet for exactly one dispatch;
//! completing it through [`IoRequest::complete`] consumes the wrapper, writes
//! the outcome into the status block, and hands the packet to the host
//! completion routine — the only sanctioned way to finalize a packet.
//! [`ReadRequest`], [`WriteRequest`] and [`IoControlRequest`] refine a request
//! into the typed view its major code calls for.

use vstd::pervasive::unreached;
use vstd::prelude::*;

use crate::error::{Error, STATUS_SUCCESS};
use crate::host::HostEvent;
use crate::ioctl::{decode_spec, ControlCode, RequiredAccess};
use crate::user_ptr::{resolve_transfer, resolve_transfer_spec, UserPtr};

verus! {

/// Major code of a create operation.
pub const IRP_MJ_CREATE: u8 = 0x00;

/// Major code of a close operation.
pub const IRP_MJ_CLOSE: u8 = 0x02;

/// Major code of a read operation.
pub const IRP_MJ_READ: u8 = 0x03;

/// Major code of a write operation.
pub const IRP_MJ_WRITE: u8 = 0x04;

/// Major code of a device-control operation.
pub const IRP_MJ_DEVICE_CONTROL: u8 = 0x0E;

/// Major code of a cleanup operation.
pub const IRP_MJ_CLEANUP: u8 = 0x12;

/// The largest major code the host defines.
pub const IRP_MJ_MAXIMUM_FUNCTION: u8 = 0x1B;

pub const IRP_NOCACHE: u32 = 0x0000_0001;
pub const IRP_PAGING_IO: u32 = 0x0000_0002;
pub const IRP_MOUNT_COMPLETION: u32 = 0x0000_0002;
pub const IRP_SYNCHRONOUS_API: u32 = 0x0000_0004;
pub const IRP_ASSOCIATED_IRP: u32 = 0x0000_0008;
pub const IRP_BUFFERED_IO: u32 = 0x0000_0010;
pub const IRP_DEALLOCATE_BUFFER: u32 = 0x0000_0020;
pub const IRP_INPUT_OPERATION: u32 = 0x0000_0040;
pub const IRP_SYNCHRONOUS_PAGING_IO: u32 = 0x0000_0040;
pub const IRP_CREATE_OPERATION: u32 = 0x0000_0080;
pub const IRP_READ_OPERATION: u32 = 0x0000_0100;
pub const IRP_WRITE_OPERATION: u32 = 0x0000_0200;
pub const IRP_CLOSE_OPERATION: u32 = 0x0000_0400;
pub const IRP_DEFER_IO_COMPLETION: u32 = 0x0000_0800;
pub const IRP_OB_QUERY_NAME: u32 = 0x0000_1000;
pub const IRP_HOLD_DEVICE_QUEUE: u32 = 0x0000_2000;
pub const IRP_UM_DRIVER_INITIATED_IO: u32 = 0x0040_0000;

/// All bits an [`IrpFlags`] set may carry.
pub const IRP_FLAGS_ALL: u32 = IRP_NOCACHE | IRP_PAGING_IO | IRP_MOUNT_COMPLETION
    | IRP_SYNCHRONOUS_API | IRP_ASSOCIATED_IRP | IRP_BUFFERED_IO | IRP_DEALLOCATE_BUFFER
    | IRP_INPUT_OPERATION | IRP_SYNCHRONOUS_PAGING_IO | IRP_CREATE_OPERATION | IRP_READ_OPERATION
    | IRP_WRITE_OPERATION | IRP_CLOSE_OPERATION | IRP_DEFER_IO_COMPLETION | IRP_OB_QUERY_NAME
    | IRP_HOLD_DEVICE_QUEUE | IRP_UM_DRIVER_INITIATED_IO;

/// The operation-flags set of a packet.
#[derive(Copy, Clone, Debug, PartialEq, Eq, Structural)]
pub struct IrpFlags {
    pub bits: u32,
}

impl IrpFlags {
    /// The empty flag set.
    pub fn empty() -> (r: IrpFlags)
        ensures
            r.bits == 0,
    {
        IrpFlags { bits: 0 }
    }

    /// The raw bits of this flag set.
    pub fn bits(&self) -> (r: u32)
        ensures
            r == self.bits,
    {
        self.bits
    }

    /// Builds a flag set from raw bits; `None` if a bit outside the named
    /// flags is set.
    pub fn from_bits(bits: u32) -> (r: Option<IrpFlags>)
        ensures
            r matches Some(f) ==> f.bits == bits,
            r is Some <==> bits & !IRP_FLAGS_ALL == 0,
    {
        if bits & !IRP_FLAGS_ALL == 0 {
            Some(IrpFlags { bits })
        } else {
            None
        }
    }

    /// Returns whether every bit of `other` is set in this flag set.
    pub fn contains(&self, other: IrpFlags) -> (r: bool)
        ensures
            r == (self.bits & other.bits == other.bits),
    {
        self.bits & other.bits == other.bits
    }

    /// The union of the two flag sets.
    pub fn union(&self, other: IrpFlags) -> (r: IrpFlags)
        ensures
            r.bits == self.bits | other.bits,
    {
        IrpFlags { bits: self.bits | other.bits }
    }
}

/// A packet's status block: the byte count and status the host reads back
/// after completion.
#[derive(Copy, Clone, Debug, PartialEq, Eq, Structural)]
pub struct IoStatusBlock {
    pub information: usize,
    pub status: u32,
}

/// What the dispatch layer reads of a locked buffer descriptor attached to a
/// packet: the system address its pages were mapped to, its byte count, and
/// its byte offset into the target. Mapping to a system address can fail
/// (address space exhaustion); `mapped_address == 0` models that failure.
#[derive(Copy, Clone, Debug, PartialEq, Eq, Structural)]
pub struct MdlDescriptor {
    pub mapped_address: u64,
    pub byte_count: u32,
    pub byte_offset: u32,
}

/// The parameter block of the current stack location, one shape per
/// operation kind that carries parameters.
#[derive(Copy, Clone, Debug, PartialEq, Eq)]
pub enum StackParameters {
    Read { length: u32, byte_offset: i64 },
    Write { length: u32, byte_offset: i64 },
    DeviceIoControl { io_control_code: u32, input_buffer_length: u32, output_buffer_length: u32 },
    Other,
}

/// The current stack location of a packet: its major code and parameters.
#[derive(Copy, Clone, Debug, PartialEq, Eq)]
pub struct StackLocation {
    pub major: u8,
    pub parameters: StackParameters,
}

/// What the dispatch layer reads and writes of one host packet, as plain
/// values. Address `0` stands for a null pointer.
#[derive(Debug, PartialEq, Eq)]
pub struct Irp {
    /// The packet's operation flags.
    pub flags: u32,
    /// The in-place system buffer, or `0` when none is attached.
    pub system_buffer: u64,
    /// The locked buffer descriptor, or `None` when none is attached.
    pub mdl: Option<MdlDescriptor>,
    /// The current stack location.
    pub stack: StackLocation,
    /// The status block the completion path writes.
    pub io_status: IoStatusBlock,
    /// Whether the packet has been handed to the host completion routine.
    pub completed: bool,
}

impl Irp {
    /// A packet is well formed when its parameter block matches its major
    /// code wherever the dispatch layer reads parameters.
    pub open spec fn wf(&self) -> bool {
        &&& (self.stack.major == IRP_MJ_READ ==> self.stack.parameters is Read)
        &&& (self.stack.major == IRP_MJ_WRITE ==> self.stack.parameters is Write)
        &&& (self.stack.major == IRP_MJ_DEVICE_CONTROL ==> self.stack.parameters
            is DeviceIoControl)
    }
}

/// The status the completion path writes for a handler outcome: the
/// distinguished success status for a byte count, the carried status for an
/// error.
pub open spec fn completion_status(value: Result<u32, Error>) -> u32 {
    match value {
        Ok(_) => STATUS_SUCCESS,
        Err(e) => e.0,
    }
}

/// The byte count the completion path writes for a handler outcome: the
/// transferred count on success, zero on failure.
pub open spec fn completion_information(value: Result<u32, Error>) -> usize {
    match value {
        Ok(n) => n as usize,
        Err(_) => 0,
    }
}

/// The packet as the host completion routine receives it: the outcome written
/// into the status block, everything else untouched.
pub open spec fn completed_irp(irp: Irp, value: Result<u32, Error>) -> Irp {
    Irp {
        io_status: IoStatusBlock {
            information: completion_information(value),
            status: completion_status(value),
        },
        completed: true,
        ..irp
    }
}

/// A transient, single-use handle wrapping one packet for one dispatch.
#[derive(Debug, PartialEq, Eq)]
pub struct IoRequest {
    pub irp: Irp,
}

impl IoRequest {
    /// Wraps a packet for one dispatch.
    pub fn from_raw(irp: Irp) -> (r: IoRequest)
        ensures
            r.irp == irp,
    {
        IoRequest { irp }
    }

    /// The wrapped packet.
    pub fn irp(&self) -> (r: &Irp)
        ensures
            *r == self.irp,
    {
        &self.irp
    }

    /// The wrapped packet, mutably.
    pub fn irp_mut(&mut self) -> (r: &mut Irp)
        ensures
            *r == old(self).irp,
            final(self).irp == *final(r),
    {
        &mut self.irp
    }

    /// The packet's operation flags; unknown bits clear the whole set.
    pub fn flags(&self) -> (r: IrpFlags)
        ensures
            r.bits == (if self.irp.flags & !IRP_FLAGS_ALL == 0 {
                self.irp.flags
            } else {
                0u32
            }),
    {
        match IrpFlags::from_bits(self.irp.flags) {
            Some(f) => f,
            None => IrpFlags::empty(),
        }
    }

    /// The packet's current stack location.
    pub fn stack_location(&self) -> (r: &StackLocation)
        ensures
            *r == self.irp.stack,
    {
        &self.irp.stack
    }

    /// The packet's major code.
    pub fn major(&self) -> (r: u8)
        ensures
            r == self.irp.stack.major,
    {
        self.irp.stack.major
    }

    /// Finalizes the packet: writes the outcome into the status block —
    /// the byte count and success for `Ok`, zero bytes and the carried
    /// status for `Err` — hands the packet to the host completion routine,
    /// and returns it to the caller. Consumes the request: a packet is
    /// completed at most once, and never while already completed.
    pub fn complete(self, value: Result<u32, Error>, log: &mut Vec<HostEvent>) -> (r: Irp)
        requires
            !self.irp.completed,
        ensures
            r == completed_irp(self.irp, value),
            final(log)@ == old(log)@.push(HostEvent::CompleteRequest {
                status: completion_status(value),
                information: completion_information(value),
            }),
    {
        let IoRequest { mut irp } = self;
        match value {
            Ok(n) => {
                irp.io_status.information = n as usize;
                irp.io_status.status = STATUS_SUCCESS;
            },
            Err(e) => {
                irp.io_status.information = 0;
                irp.io_status.status = e.to_ntstatus();
            },
        }
        irp.completed = true;
        log.push(HostEvent::CompleteRequest {
            status: irp.io_status.status,
            information: irp.io_status.information,
        });
        irp
    }
}

/// The buffer a read operation resolves, with its length: the mapped
/// descriptor when one is attached (or the null failure signal when its
/// mapping failed), else the system buffer with the inline length, else
/// nothing.
pub open spec fn read_buffer_spec(irp: Irp) -> (u64, usize) {
    match irp.mdl {
        Some(m) => if m.mapped_address == 0 {
            (0u64, 0usize)
        } else {
            (m.mapped_address, m.byte_count as usize)
        },
        None => if irp.system_buffer != 0 {
            (irp.system_buffer, irp.stack.parameters->Read_length as usize)
        } else {
            (0u64, 0usize)
        },
    }
}

/// The byte offset of a read operation: the descriptor's offset when one is
/// attached, else the inline offset, else zero.
pub open spec fn read_offset_spec(irp: Irp) -> i64 {
    match irp.mdl {
        Some(m) => m.byte_offset as i64,
        None => if irp.system_buffer != 0 {
            irp.stack.parameters->Read_byte_offset
        } else {
            0
        },
    }
}

/// A request refined into the read view.
#[derive(Debug, PartialEq, Eq)]
pub struct ReadRequest {
    pub inner: IoRequest,
}

impl ReadRequest {
    /// A read view is well formed over a packet carrying read parameters.
    pub open spec fn wf(&self) -> bool {
        self.inner.irp.stack.parameters is Read
    }

    /// The buffer the handler writes the read data into, as a buffered view
    /// with output capacity: the mapped descriptor takes priority, then the
    /// system buffer with the inline length, else no buffer.
    pub fn user_ptr(&self) -> (r: UserPtr)
        requires
            self.wf(),
        ensures
            r == (UserPtr::Buffered {
                ptr: read_buffer_spec(self.inner.irp).0,
                input_len: 0usize,
                output_len: read_buffer_spec(self.inner.irp).1,
            }),
    {
        let irp = &self.inner.irp;
        let (ptr, size): (u64, usize) = match &irp.mdl {
            Some(m) => if m.mapped_address == 0 {
                (0u64, 0usize)
            } else {
                (m.mapped_address, m.byte_count as usize)
            },
            None => if irp.system_buffer != 0 {
                match &irp.stack.parameters {
                    StackParameters::Read { length, .. } => (irp.system_buffer, *length as usize),
                    _ => unreached(),
                }
            } else {
                (0u64, 0usize)
            },
        };
        UserPtr::new_buffered(ptr, 0, size)
    }

    /// The signed byte offset of the read into its target.
    pub fn offset(&self) -> (r: i64)
        requires
            self.wf(),
        ensures
            r == read_offset_spec(self.inner.irp),
    {
        let irp = &self.inner.irp;
        match &irp.mdl {
            Some(m) => m.byte_offset as i64,
            None => if irp.system_buffer != 0 {
                match &irp.stack.parameters {
                    StackParameters::Read { byte_offset, .. } => *byte_offset,
                    _ => unreached(),
                }
            } else {
                0
            },
        }
    }

    /// Gives the plain request back.
    pub fn into_inner(self) -> (r: IoRequest)
        ensures
            r == self.inner,
    {
        self.inner
    }
}

/// The buffer a write operation reads its data from, with its length;
/// resolved like a read's buffer, from the write parameters.
pub open spec fn write_buffer_spec(irp: Irp) -> (u64, usize) {
    match irp.mdl {
        Some(m) => if m.mapped_address == 0 {
            (0u64, 0usize)
        } else {
            (m.mapped_address, m.byte_count as usize)
        },
        None => if irp.system_buffer != 0 {
            (irp.system_buffer, irp.stack.parameters->Write_length as usize)
        } else {
            (0u64, 0usize)
        },
    }
}

/// The byte offset of a write operation: the descriptor's offset when one is
/// attached, else the inline offset, else zero.
pub open spec fn write_offset_spec(irp: Irp) -> i64 {
    match irp.mdl {
        Some(m) => m.byte_offset as i64,
        None => if irp.system_buffer != 0 {
            irp.stack.parameters->Write_byte_offset
        } else {
            0
        },
    }
}

/// A request refined into the write view.
#[derive(Debug, PartialEq, Eq)]
pub struct WriteRequest {
    pub inner: IoRequest,
}

impl WriteRequest {
    /// A write view is well formed over a packet carrying write parameters.
    pub open spec fn wf(&self) -> bool {
        self.inner.irp.stack.parameters is Write
    }

    /// The buffer the handler reads the written data from, as a buffered
    /// view with input capacity: the mapped descriptor takes priority, then
    /// the system buffer with the inline length, else no buffer.
    pub fn user_ptr(&self) -> (r: UserPtr)
        requires
            self.wf(),
        ensures
            r == (UserPtr::Buffered {
                ptr: write_buffer_spec(self.inner.irp).0,
                input_len: write_buffer_spec(self.inner.irp).1,
                output_len: 0usize,
            }),
    {
        let irp = &self.inner.irp;
        let (ptr, size): (u64, usize) = match &irp.mdl {
            Some(m) => if m.mapped_address == 0 {
                (0u64, 0usize)
            } else {
                (m.mapped_address, m.byte_count as usize)
            },
            None => if irp.system_buffer != 0 {
                match &irp.stack.parameters {
                    StackParameters::Write { length, .. } => (irp.system_buffer, *length as usize),
                    _ => unreached(),
                }
            } else {
                (0u64, 0usize)
            },
        };
        UserPtr::new_buffered(ptr, size, 0)
    }

    /// The signed byte offset of the write into its target.
    pub fn offset(&self) -> (r: i64)
        requires
            self.wf(),
        ensures
            r == write_offset_spec(self.inner.irp),
    {
        let irp = &self.inner.irp;
        match &irp.mdl {
            Some(m) => m.byte_offset as i64,
            None => if irp.system_buffer != 0 {
                match &irp.stack.parameters {
                    StackParameters::Write { byte_offset, .. } => *byte_offset,
                    _ => unreached(),
                }
            } else {
                0
            },
        }
    }

    /// Gives the plain request back.
    pub fn into_inner(self) -> (r: IoRequest)
        ensures
            r == self.inner,
    {
        self.inner
    }
}

/// The system address a packet's descriptor was mapped to: `0` when no
/// descriptor is attached or its mapping failed.
pub open spec fn mdl_address_spec(irp: Irp) -> u64 {
    match irp.mdl {
        Some(m) => m.mapped_address,
        None => 0u64,
    }
}

/// The control code carried by a device-control packet, decoded.
pub open spec fn control_code_spec(irp: Irp) -> ControlCode {
    decode_spec(irp.stack.parameters->DeviceIoControl_io_control_code)
}

/// The buffer view of a device-control packet, resolved per its control
/// code's transfer method from the packet's two buffer sources and the
/// operation's two lengths.
pub open spec fn control_user_ptr_spec(irp: Irp) -> UserPtr {
    resolve_transfer_spec(
        control_code_spec(irp).transfer_method,
        irp.system_buffer,
        mdl_address_spec(irp),
        irp.stack.parameters->DeviceIoControl_input_buffer_length,
        irp.stack.parameters->DeviceIoControl_output_buffer_length,
    )
}

/// A request refined into the device-control view.
#[derive(Debug, PartialEq, Eq)]
pub struct IoControlRequest {
    pub inner: IoRequest,
}

impl IoControlRequest {
    /// A control view is well formed over a packet carrying device-control
    /// parameters.
    pub open spec fn wf(&self) -> bool {
        self.inner.irp.stack.parameters is DeviceIoControl
    }

    /// The decoded control code of the operation.
    pub fn control_code(&self) -> (r: ControlCode)
        requires
            self.wf(),
        ensures
            r == control_code_spec(self.inner.irp),
    {
        match &self.inner.irp.stack.parameters {
            StackParameters::DeviceIoControl { io_control_code, .. } => ControlCode::decode(
                *io_control_code,
            ),
            _ => unreached(),
        }
    }

    /// The access the operation demands and its function number.
    pub fn function(&self) -> (r: (RequiredAccess, u32))
        requires
            self.wf(),
        ensures
            r.0 == control_code_spec(self.inner.irp).required_access,
            r.1 == control_code_spec(self.inner.irp).number,
    {
        let code = self.control_code();
        (code.required_access(), code.number())
    }

    /// The buffer view of the operation, resolved per the control code's
    /// transfer method.
    pub fn user_ptr(&self) -> (r: UserPtr)
        requires
            self.wf(),
        ensures
            r == control_user_ptr_spec(self.inner.irp),
    {
        let irp = &self.inner.irp;
        let mdl_address = match &irp.mdl {
            Some(m) => m.mapped_address,
            None => 0u64,
        };
        match &irp.stack.parameters {
            StackParameters::DeviceIoControl {
                io_control_code,
                input_buffer_length,
                output_buffer_length,
            } => {
                let code = ControlCode::decode(*io_control_code);
                resolve_transfer(
                    code.transfer_method(),
                    irp.system_buffer,
                    mdl_address,
                    *input_buffer_length,
                    *output_buffer_length,
                )
            },
            _ => unreached(),
        }
    }

    /// Gives the plain request back.
    pub fn into_inner(self) -> (r: IoRequest)
        ensures
            r == self.inner,
    {
        self.inner
    }
}

} // verus!
