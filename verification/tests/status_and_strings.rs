use win_kernel::allocator::{selects_pool2, KernelAllocator, PhysicalAllocator};
use win_kernel::device::{Access, DeviceDoFlags, DeviceFlags, DO_BUFFERED_IO, DO_DIRECT_IO};
use win_kernel::error::{
    Error, IntoResult, STATUS_SUCCESS, STATUS_UNSUCCESSFUL,
};
use win_kernel::host::HostEvent;
use win_kernel::request::{
    IoRequest, IoStatusBlock, Irp, IrpFlags, StackLocation, StackParameters, IRP_BUFFERED_IO,
    IRP_MJ_CREATE, IRP_NOCACHE,
};
use win_kernel::string::{create_unicode_from_str, create_unicode_string, from_unicode_string};

fn plain_irp(flags: u32) -> Irp {
    Irp {
        flags,
        system_buffer: 0,
        mdl: None,
        stack: StackLocation { major: IRP_MJ_CREATE, parameters: StackParameters::Other },
        io_status: IoStatusBlock { information: 0, status: 0 },
        completed: false,
    }
}

#[test]
fn status_conversion_round_trips() {
    let e = Error::from_ntstatus(STATUS_UNSUCCESSFUL);
    assert_eq!(e.to_ntstatus(), STATUS_UNSUCCESSFUL);
}

#[test]
fn into_result_maps_success_and_failure() {
    assert!(STATUS_SUCCESS.into_result().is_ok());
    let e = STATUS_UNSUCCESSFUL.into_result().unwrap_err();
    assert_eq!(e.to_ntstatus(), STATUS_UNSUCCESSFUL);
}

#[test]
fn complete_writes_the_outcome_into_the_packet() {
    let mut log: Vec<HostEvent> = Vec::new();
    let ok = IoRequest::from_raw(plain_irp(0)).complete(Ok(7), &mut log);
    assert!(ok.completed);
    assert_eq!(ok.io_status.status, STATUS_SUCCESS);
    assert_eq!(ok.io_status.information, 7);
    let err = IoRequest::from_raw(plain_irp(0))
        .complete(Err(Error::from_ntstatus(STATUS_UNSUCCESSFUL)), &mut log);
    assert!(err.completed);
    assert_eq!(err.io_status.status, STATUS_UNSUCCESSFUL);
    assert_eq!(err.io_status.information, 0);
    assert_eq!(
        log,
        vec![
            HostEvent::CompleteRequest { status: STATUS_SUCCESS, information: 7 },
            HostEvent::CompleteRequest { status: STATUS_UNSUCCESSFUL, information: 0 },
        ]
    );
}

#[test]
fn irp_flags_reject_unknown_bits() {
    assert!(IrpFlags::from_bits(IRP_NOCACHE | IRP_BUFFERED_IO).is_some());
    assert!(IrpFlags::from_bits(0x8000_0000).is_none());
}

#[test]
fn request_flags_clear_on_unknown_bits() {
    let known = IoRequest::from_raw(plain_irp(IRP_NOCACHE | IRP_BUFFERED_IO));
    assert_eq!(known.flags().bits(), IRP_NOCACHE | IRP_BUFFERED_IO);
    let unknown = IoRequest::from_raw(plain_irp(IRP_NOCACHE | 0x8000_0000));
    assert_eq!(unknown.flags().bits(), 0);
}

#[test]
fn flag_sets_support_contains_and_union() {
    let both = DeviceDoFlags::buffered_io().union(DeviceDoFlags::direct_io());
    assert_eq!(both.bits(), DO_BUFFERED_IO | DO_DIRECT_IO);
    assert!(both.contains(DeviceDoFlags::direct_io()));
    assert!(!DeviceDoFlags::buffered_io().contains(both));
    assert!(DeviceFlags::from_bits(0x200).is_none());
    assert_eq!(DeviceFlags::secure_open().bits(), 0x100);
}

#[test]
fn access_exclusivity() {
    assert!(Access::Exclusive.is_exclusive());
    assert!(!Access::NonExclusive.is_exclusive());
}

#[test]
fn allocator_holds_its_tag() {
    let tag = u32::from_ne_bytes(*b"rust");
    assert_eq!(KernelAllocator::new(tag).tag(), tag);
    let _stateless = PhysicalAllocator;
}

#[test]
fn pool_entry_point_selection() {
    assert!(selects_pool2(11, 0));
    assert!(selects_pool2(10, 19041));
    assert!(!selects_pool2(10, 19042));
    assert!(!selects_pool2(10, 18363));
    assert!(!selects_pool2(6, 19041));
}

#[test]
fn unicode_from_str_encodes_ascii() {
    let u = create_unicode_from_str("ab").unwrap();
    assert_eq!(u.buffer, vec![0x61, 0x62]);
    assert_eq!(u.length, 4);
    assert_eq!(u.maximum_length, 4);
}

#[test]
fn unicode_from_str_encodes_beyond_ascii() {
    let euro = create_unicode_from_str("€").unwrap();
    assert_eq!(euro.buffer, vec![0x20AC]);
    let smile = create_unicode_from_str("😀").unwrap();
    assert_eq!(smile.buffer, vec![0xD83D, 0xDE00]);
    assert_eq!(smile.length, 4);
}

#[test]
fn unicode_from_str_rejects_interior_nul() {
    assert!(create_unicode_from_str("a\0b").is_none());
}

#[test]
fn unicode_string_trims_one_trailing_nul_from_the_used_length() {
    let u = create_unicode_string(&[0x61, 0]);
    assert_eq!(u.length, 2);
    assert_eq!(u.maximum_length, 4);
    assert_eq!(u.buffer, vec![0x61, 0]);
    let empty = create_unicode_string(&[]);
    assert_eq!(empty.length, 0);
    assert_eq!(empty.maximum_length, 0);
}

#[test]
fn unicode_string_decodes_back() {
    let u = create_unicode_from_str("\\Device\\Echo€").unwrap();
    assert_eq!(from_unicode_string(&u), "\\Device\\Echo€");
    let made = create_unicode_string(&[0x20AC, 0x61]);
    assert_eq!(from_unicode_string(&made), "€a");
}
