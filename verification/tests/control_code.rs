use win_kernel::device::DeviceType;
use win_kernel::error::STATUS_INVALID_PARAMETER;
use win_kernel::ioctl::{ControlCode, RequiredAccess, TransferMethod};

#[test]
fn encode_keyboard_read_buffered_exact_value() {
    let cc = ControlCode::new(
        DeviceType::Keyboard,
        RequiredAccess::Read,
        0x801,
        TransferMethod::Buffered,
    )
    .unwrap();
    // (0x0B << 16) | (1 << 14) | (0x801 << 2) | 0
    assert_eq!(cc.encode(), 0x000B_6004);
}

#[test]
fn round_trip_keyboard_read_buffered() {
    let cc = ControlCode::new(
        DeviceType::Keyboard,
        RequiredAccess::Read,
        0x801,
        TransferMethod::Buffered,
    )
    .unwrap();
    let decoded = ControlCode::decode(cc.encode());
    assert_eq!(decoded, cc);
}

#[test]
fn round_trip_over_field_edges() {
    let types = [
        DeviceType::Port8042,
        DeviceType::Beep,
        DeviceType::Fips,
        DeviceType::Unknown,
        DeviceType::WaveOut,
    ];
    let accesses = [
        RequiredAccess::Any,
        RequiredAccess::Read,
        RequiredAccess::Write,
        RequiredAccess::ReadWrite,
    ];
    let methods = [
        TransferMethod::Buffered,
        TransferMethod::InputDirect,
        TransferMethod::OutputDirect,
        TransferMethod::Neither,
    ];
    let numbers = [0u32, 1, 0x800, 0xFFF];
    for t in types {
        for a in accesses {
            for m in methods {
                for n in numbers {
                    let cc = ControlCode::new(t, a, n, m).unwrap();
                    assert_eq!(ControlCode::decode(cc.encode()), cc);
                }
            }
        }
    }
}

#[test]
fn new_rejects_number_beyond_twelve_bits() {
    let r = ControlCode::new(
        DeviceType::Null,
        RequiredAccess::Any,
        0x1000,
        TransferMethod::Neither,
    );
    assert_eq!(r.unwrap_err().to_ntstatus(), STATUS_INVALID_PARAMETER);
}

#[test]
fn new_accepts_largest_number() {
    assert!(ControlCode::new(
        DeviceType::Null,
        RequiredAccess::Any,
        0xFFF,
        TransferMethod::Neither,
    )
    .is_ok());
}

#[test]
fn decode_is_total_and_coerces_unknown_device_type() {
    // Device-type code 0x4000 names no known device type.
    let value = (0x4000u32 << 16) | (2 << 14) | (0x7 << 2) | 1;
    let cc = ControlCode::decode(value);
    assert_eq!(cc.device_type(), DeviceType::Unknown);
    assert_eq!(cc.required_access(), RequiredAccess::Write);
    assert_eq!(cc.number(), 0x7);
    assert_eq!(cc.transfer_method(), TransferMethod::InputDirect);
}

#[test]
fn device_type_codes_spot_values() {
    assert_eq!(DeviceType::Beep.to_u32(), 0x01);
    assert_eq!(DeviceType::Unknown.to_u32(), 0x22);
    assert_eq!(DeviceType::Port8042.to_u32(), 0x27);
    assert_eq!(DeviceType::Fips.to_u32(), 0x3A);
    assert_eq!(DeviceType::from_u32(0x0B), DeviceType::Keyboard);
    assert_eq!(DeviceType::from_u32(0xDEAD), DeviceType::Unknown);
}

#[test]
fn device_type_u32_round_trip_all_variants() {
    let all = [
        DeviceType::Port8042,
        DeviceType::Acpi,
        DeviceType::Battery,
        DeviceType::Beep,
        DeviceType::BusExtender,
        DeviceType::Cdrom,
        DeviceType::CdromFileSystem,
        DeviceType::Changer,
        DeviceType::Controller,
        DeviceType::DataLink,
        DeviceType::Dfs,
        DeviceType::DfsFileSystem,
        DeviceType::DfsVolume,
        DeviceType::Disk,
        DeviceType::DiskFileSystem,
        DeviceType::Dvd,
        DeviceType::FileSystem,
        DeviceType::Fips,
        DeviceType::FullscreenVideo,
        DeviceType::InportPort,
        DeviceType::Keyboard,
        DeviceType::Ks,
        DeviceType::Ksec,
        DeviceType::Mailslot,
        DeviceType::MassStorage,
        DeviceType::MidiIn,
        DeviceType::MidiOut,
        DeviceType::Modem,
        DeviceType::Mouse,
        DeviceType::MultiUncProvider,
        DeviceType::NamedPipe,
        DeviceType::Network,
        DeviceType::NetworkBrowser,
        DeviceType::NetworkFileSystem,
        DeviceType::NetworkRedirector,
        DeviceType::Null,
        DeviceType::ParallelPort,
        DeviceType::PhysicalNetcard,
        DeviceType::Printer,
        DeviceType::Scanner,
        DeviceType::Screen,
        DeviceType::Serenum,
        DeviceType::SerialPort,
        DeviceType::SerialMousePort,
        DeviceType::Smartcard,
        DeviceType::Smb,
        DeviceType::Sound,
        DeviceType::Streams,
        DeviceType::Tape,
        DeviceType::TapeFileSystem,
        DeviceType::Termsrv,
        DeviceType::Transport,
        DeviceType::Unknown,
        DeviceType::Vdm,
        DeviceType::Video,
        DeviceType::VirtualDisk,
        DeviceType::WaveIn,
        DeviceType::WaveOut,
    ];
    for t in all {
        assert_eq!(DeviceType::from_u32(t.to_u32()), t);
    }
}

#[test]
fn access_and_method_codes() {
    assert_eq!(RequiredAccess::Any.to_u32(), 0);
    assert_eq!(RequiredAccess::ReadWrite.to_u32(), 3);
    assert_eq!(RequiredAccess::from_u32(3), RequiredAccess::ReadWrite);
    assert_eq!(TransferMethod::OutputDirect.to_u32(), 2);
    assert_eq!(TransferMethod::from_u32(3), TransferMethod::Neither);
}
