//! The 32-bit control-code scheme of the device-control path.
//!
//! A control code packs four fields into one 32-bit value: the device type
//! (16 bits), the access the caller must hold on the device (2 bits), the
//! function number (12 bits), and the transfer method (2 bits). Encoding is
//! range-checked at construction; decoding is pure and total, with an
//! unrecognized device-type code coercing to [`DeviceType::Unknown`].

use vstd::prelude::*;

use crate::device::{
    device_type_code, device_type_of_code, lemma_device_type_code_bound,
    lemma_device_type_code_round_trip, DeviceType,
};
use crate::error::{Error, STATUS_INVALID_PARAMETER};

verus! {

/// The host code asking for no particular access.
pub const FILE_ANY_ACCESS: u32 = 0x0000_0000;

/// The host code asking for read access.
pub const FILE_READ_ACCESS: u32 = 0x0000_0001;

/// The host code asking for write access.
pub const FILE_WRITE_ACCESS: u32 = 0x0000_0002;

/// The access a caller must hold on the device to issue a control operation.
#[derive(Copy, Clone, Debug, PartialEq, Eq, Structural)]
pub enum RequiredAccess {
    Any,
    Read,
    Write,
    ReadWrite,
}

/// The 2-bit host code of a required access.
pub open spec fn required_access_code(a: RequiredAccess) -> u32 {
    match a {
        RequiredAccess::Any => FILE_ANY_ACCESS,
        RequiredAccess::Read => FILE_READ_ACCESS,
        RequiredAccess::Write => FILE_WRITE_ACCESS,
        RequiredAccess::ReadWrite => FILE_READ_ACCESS | FILE_WRITE_ACCESS,
    }
}

/// The required access a 2-bit host code stands for.
pub open spec fn required_access_of_code(value: u32) -> RequiredAccess {
    if value == FILE_ANY_ACCESS {
        RequiredAccess::Any
    } else if value == FILE_READ_ACCESS {
        RequiredAccess::Read
    } else if value == FILE_WRITE_ACCESS {
        RequiredAccess::Write
    } else {
        RequiredAccess::ReadWrite
    }
}

impl RequiredAccess {
    /// Returns the 2-bit host code of this required access.
    pub fn to_u32(self) -> (r: u32)
        ensures
            r == required_access_code(self),
    {
        match self {
            RequiredAccess::Any => FILE_ANY_ACCESS,
            RequiredAccess::Read => FILE_READ_ACCESS,
            RequiredAccess::Write => FILE_WRITE_ACCESS,
            RequiredAccess::ReadWrite => FILE_READ_ACCESS | FILE_WRITE_ACCESS,
        }
    }

    /// Returns the required access a 2-bit host code stands for.
    pub fn from_u32(value: u32) -> (r: RequiredAccess)
        ensures
            r == required_access_of_code(value),
    {
        if value == FILE_ANY_ACCESS {
            RequiredAccess::Any
        } else if value == FILE_READ_ACCESS {
            RequiredAccess::Read
        } else if value == FILE_WRITE_ACCESS {
            RequiredAccess::Write
        } else {
            RequiredAccess::ReadWrite
        }
    }
}

/// The convention by which the packet exposes the operation's buffers to the
/// handler.
#[derive(Copy, Clone, Debug, PartialEq, Eq, Structural)]
pub enum TransferMethod {
    Buffered,
    InputDirect,
    OutputDirect,
    Neither,
}

/// The 2-bit host code of a transfer method.
pub open spec fn transfer_method_code(m: TransferMethod) -> u32 {
    match m {
        TransferMethod::Buffered => 0,
        TransferMethod::InputDirect => 1,
        TransferMethod::OutputDirect => 2,
        TransferMethod::Neither => 3,
    }
}

/// The transfer method a 2-bit host code stands for.
pub open spec fn transfer_method_of_code(value: u32) -> TransferMethod {
    if value == 0 {
        TransferMethod::Buffered
    } else if value == 1 {
        TransferMethod::InputDirect
    } else if value == 2 {
        TransferMethod::OutputDirect
    } else {
        TransferMethod::Neither
    }
}

impl TransferMethod {
    /// Returns the 2-bit host code of this transfer method.
    pub fn to_u32(self) -> (r: u32)
        ensures
            r == transfer_method_code(self),
    {
        match self {
            TransferMethod::Buffered => 0,
            TransferMethod::InputDirect => 1,
            TransferMethod::OutputDirect => 2,
            TransferMethod::Neither => 3,
        }
    }

    /// Returns the transfer method a 2-bit host code stands for.
    pub fn from_u32(value: u32) -> (r: TransferMethod)
        ensures
            r == transfer_method_of_code(value),
    {
        if value == 0 {
            TransferMethod::Buffered
        } else if value == 1 {
            TransferMethod::InputDirect
        } else if value == 2 {
            TransferMethod::OutputDirect
        } else {
            TransferMethod::Neither
        }
    }
}

/// A decomposed control code: device type, required access, function number
/// and transfer method.
#[derive(Copy, Clone, Debug, PartialEq, Eq, Structural)]
pub struct ControlCode {
    pub device_type: DeviceType,
    pub required_access: RequiredAccess,
    pub number: u32,
    pub transfer_method: TransferMethod,
}

/// The 32-bit value a control code packs into.
pub open spec fn encode_spec(cc: ControlCode) -> u32 {
    (device_type_code(cc.device_type) << 16u32) | (required_access_code(cc.required_access)
        << 14u32) | (cc.number << 2u32) | transfer_method_code(cc.transfer_method)
}

/// The four fields a 32-bit value decomposes into. Total: every value decodes.
pub open spec fn decode_spec(value: u32) -> ControlCode {
    ControlCode {
        device_type: device_type_of_code(value >> 16u32),
        required_access: required_access_of_code((value >> 14u32) & 0x3),
        number: (value >> 2u32) & 0xFFF,
        transfer_method: transfer_method_of_code(value & 0x3),
    }
}

impl ControlCode {
    /// A control code is well formed when its function number fits the 12
    /// bits reserved for it. The other three fields are kept in range by
    /// their types.
    pub open spec fn wf(&self) -> bool {
        self.number < 0x1000
    }

    /// Builds a control code from its four fields, range-checking the
    /// function number: a number outside 12 bits is rejected with an
    /// invalid-parameter error, and every in-range combination is accepted.
    pub fn new(
        device_type: DeviceType,
        required_access: RequiredAccess,
        number: u32,
        transfer_method: TransferMethod,
    ) -> (r: Result<ControlCode, Error>)
        ensures
            r is Ok <==> number < 0x1000,
            r matches Ok(cc) ==> cc == (ControlCode {
                device_type,
                required_access,
                number,
                transfer_method,
            }) && cc.wf(),
            r matches Err(e) ==> e.0 == STATUS_INVALID_PARAMETER,
    {
        if number < 0x1000 {
            Ok(ControlCode { device_type, required_access, number, transfer_method })
        } else {
            Err(Error::from_ntstatus(STATUS_INVALID_PARAMETER))
        }
    }

    /// Packs the four fields into their 32-bit value.
    pub fn encode(&self) -> (r: u32)
        requires
            self.wf(),
        ensures
            r == encode_spec(*self),
    {
        (self.device_type.to_u32() << 16u32) | (self.required_access.to_u32() << 14u32) | (
        self.number << 2u32) | self.transfer_method.to_u32()
    }

    /// Unpacks a 32-bit value into its four fields. Total: an unrecognized
    /// device-type code coerces to `Unknown` rather than failing.
    pub fn decode(value: u32) -> (r: ControlCode)
        ensures
            r == decode_spec(value),
    {
        ControlCode {
            device_type: DeviceType::from_u32(value >> 16u32),
            required_access: RequiredAccess::from_u32((value >> 14u32) & 0x3),
            number: (value >> 2u32) & 0xFFF,
            transfer_method: TransferMethod::from_u32(value & 0x3),
        }
    }

    /// The device type embedded in this control code.
    pub fn device_type(&self) -> (r: DeviceType)
        ensures
            r == self.device_type,
    {
        self.device_type
    }

    /// The access the caller must hold on the device.
    pub fn required_access(&self) -> (r: RequiredAccess)
        ensures
            r == self.required_access,
    {
        self.required_access
    }

    /// The function number of the operation.
    pub fn number(&self) -> (r: u32)
        ensures
            r == self.number,
    {
        self.number
    }

    /// The transfer method of the operation.
    pub fn transfer_method(&self) -> (r: TransferMethod)
        ensures
            r == self.transfer_method,
    {
        self.transfer_method
    }
}

/// Round trip: decoding the encoding of any well-formed control code yields
/// the same four fields.
pub proof fn lemma_control_code_round_trip(cc: ControlCode)
    requires
        cc.wf(),
    ensures
        decode_spec(encode_spec(cc)) == cc,
{
    let dt = device_type_code(cc.device_type);
    let acc = required_access_code(cc.required_access);
    let num = cc.number;
    let m = transfer_method_code(cc.transfer_method);
    let v = encode_spec(cc);
    lemma_device_type_code_bound(cc.device_type);
    assert(FILE_READ_ACCESS | FILE_WRITE_ACCESS == 3) by (bit_vector);
    assert(acc < 4);
    assert(m < 4);
    assert(v >> 16u32 == dt && (v >> 14u32) & 0x3 == acc && (v >> 2u32) & 0xFFF == num && v & 0x3
        == m) by (bit_vector)
        requires
            dt < 0x10000,
            acc < 4,
            num < 0x1000,
            m < 4,
            v == (dt << 16u32) | (acc << 14u32) | (num << 2u32) | m,
    ;
    lemma_device_type_code_round_trip(cc.device_type);
    assert(required_access_of_code(acc) == cc.required_access);
    assert(transfer_method_of_code(m) == cc.transfer_method);
}

} // verus!
