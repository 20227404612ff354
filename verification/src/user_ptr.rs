//! Capability-tagged views of a packet's buffers.
//!
//! A packet exposes at most two buffer sources: a single in-place system
//! buffer, and a locked buffer descriptor mapped to a system address. One
//! [`UserPtr`] unifies the four shapes a handler can receive, and
//! [`resolve_transfer`] picks the shape a transfer method calls for.
//! Addresses are carried as plain values; address `0` stands for a null
//! pointer. A view borrows no memory of its own: it is valid only for the
//! handler call it is computed for.

use vstd::prelude::*;

use crate::ioctl::TransferMethod;

verus! {

/// A view of the buffers of one operation.
#[derive(Copy, Clone, Debug, PartialEq, Eq, Structural)]
pub enum UserPtr {
    /// One in-place buffer: it holds the input before the handler runs and
    /// receives the output after.
    Buffered { ptr: u64, input_len: usize, output_len: usize },
    /// Separate input and output buffers.
    Direct { input_ptr: u64, output_ptr: u64, input_len: usize, output_len: usize },
    /// No resolved buffer: the handler must validate and copy from raw
    /// user-supplied addresses itself.
    Neither,
}

impl UserPtr {
    /// The buffered view over one in-place buffer.
    pub fn new_buffered(ptr: u64, input_len: usize, output_len: usize) -> (r: UserPtr)
        ensures
            r == (UserPtr::Buffered { ptr, input_len, output_len }),
    {
        UserPtr::Buffered { ptr, input_len, output_len }
    }

    /// The direct view over separate input and output buffers.
    pub fn new_direct(input_ptr: u64, output_ptr: u64, input_len: usize, output_len: usize) -> (r:
        UserPtr)
        ensures
            r == (UserPtr::Direct { input_ptr, output_ptr, input_len, output_len }),
    {
        UserPtr::Direct { input_ptr, output_ptr, input_len, output_len }
    }

    /// The view with no resolved buffer.
    pub fn new_neither() -> (r: UserPtr)
        ensures
            r == UserPtr::Neither,
    {
        UserPtr::Neither
    }
}

/// The view a transfer method resolves to, from the packet's two buffer
/// sources and the operation's two lengths.
///
/// - `Buffered`: the system buffer serves in place, input length before the
///   call, output length after.
/// - `InputDirect`: input arrives through the mapped descriptor (with the
///   output length as its capacity), output goes to the system buffer (with
///   the input length as its capacity).
/// - `OutputDirect`: input arrives through the system buffer, output goes to
///   the mapped descriptor.
/// - `Neither`: nothing is resolved.
///
/// A descriptor whose mapping failed has address `0`; the view then pairs
/// that null address with length `0`, which is the documented failure signal
/// a handler must check for before dereferencing.
pub open spec fn resolve_transfer_spec(
    method: TransferMethod,
    system_buffer: u64,
    mdl_address: u64,
    input_len: u32,
    output_len: u32,
) -> UserPtr {
    match method {
        TransferMethod::Buffered => UserPtr::Buffered {
            ptr: system_buffer,
            input_len: input_len as usize,
            output_len: output_len as usize,
        },
        TransferMethod::InputDirect => UserPtr::Direct {
            input_ptr: mdl_address,
            output_ptr: system_buffer,
            input_len: if mdl_address == 0 {
                0usize
            } else {
                output_len as usize
            },
            output_len: input_len as usize,
        },
        TransferMethod::OutputDirect => UserPtr::Direct {
            input_ptr: system_buffer,
            output_ptr: mdl_address,
            input_len: input_len as usize,
            output_len: if mdl_address == 0 {
                0usize
            } else {
                output_len as usize
            },
        },
        TransferMethod::Neither => UserPtr::Neither,
    }
}

/// Resolves one buffer view per the transfer method's row of the resolution
/// table (see [`resolve_transfer_spec`]).
pub fn resolve_transfer(
    method: TransferMethod,
    system_buffer: u64,
    mdl_address: u64,
    input_len: u32,
    output_len: u32,
) -> (r: UserPtr)
    ensures
        r == resolve_transfer_spec(method, system_buffer, mdl_address, input_len, output_len),
{
    match method {
        TransferMethod::Buffered => UserPtr::new_buffered(
            system_buffer,
            input_len as usize,
            output_len as usize,
        ),
        TransferMethod::InputDirect => UserPtr::new_direct(
            mdl_address,
            system_buffer,
            if mdl_address == 0 {
                0usize
            } else {
                output_len as usize
            },
            input_len as usize,
        ),
        TransferMethod::OutputDirect => UserPtr::new_direct(
            system_buffer,
            mdl_address,
            input_len as usize,
            if mdl_address == 0 {
                0usize
            } else {
                output_len as usize
            },
        ),
        TransferMethod::Neither => UserPtr::new_neither(),
    }
}

} // verus!
