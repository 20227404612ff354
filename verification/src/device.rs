//! The device model: device types, access modes, and device flags.
//!
//! A device carries a 16-bit device-type tag. The tag travels inside control
//! codes as well, so it converts to and from its 32-bit host code; an
//! unrecognized code coerces to [`DeviceType::Unknown`] rather than failing.

use vstd::pervasive::unreached;
use vstd::prelude::*;

use crate::error::Error;
use crate::host::HostEvent;
use crate::request::{IoControlRequest, IoRequest, ReadRequest, WriteRequest};

verus! {

/// Whether a device is opened for exclusive access.
#[derive(Copy, Clone, Debug)]
pub enum Access {
    NonExclusive,
    Exclusive,
}

impl Access {
    /// Returns whether this access mode is exclusive.
    pub fn is_exclusive(&self) -> (r: bool)
        ensures
            r == (*self is Exclusive),
    {
        match *self {
            Access::Exclusive => true,
            Access::NonExclusive => false,
        }
    }
}

pub const FILE_DEVICE_8042_PORT: u32 = 0x0000_0027;
pub const FILE_DEVICE_ACPI: u32 = 0x0000_0032;
pub const FILE_DEVICE_BATTERY: u32 = 0x0000_0029;
pub const FILE_DEVICE_BEEP: u32 = 0x0000_0001;
pub const FILE_DEVICE_BUS_EXTENDER: u32 = 0x0000_002a;
pub const FILE_DEVICE_CD_ROM: u32 = 0x0000_0002;
pub const FILE_DEVICE_CD_ROM_FILE_SYSTEM: u32 = 0x0000_0003;
pub const FILE_DEVICE_CHANGER: u32 = 0x0000_0030;
pub const FILE_DEVICE_CONTROLLER: u32 = 0x0000_0004;
pub const FILE_DEVICE_DATALINK: u32 = 0x0000_0005;
pub const FILE_DEVICE_DFS: u32 = 0x0000_0006;
pub const FILE_DEVICE_DFS_FILE_SYSTEM: u32 = 0x0000_0035;
pub const FILE_DEVICE_DFS_VOLUME: u32 = 0x0000_0036;
pub const FILE_DEVICE_DISK: u32 = 0x0000_0007;
pub const FILE_DEVICE_DISK_FILE_SYSTEM: u32 = 0x0000_0008;
pub const FILE_DEVICE_DVD: u32 = 0x0000_0033;
pub const FILE_DEVICE_FILE_SYSTEM: u32 = 0x0000_0009;
pub const FILE_DEVICE_FIPS: u32 = 0x0000_003a;
pub const FILE_DEVICE_FULLSCREEN_VIDEO: u32 = 0x0000_0034;
pub const FILE_DEVICE_INPORT_PORT: u32 = 0x0000_000a;
pub const FILE_DEVICE_KEYBOARD: u32 = 0x0000_000b;
pub const FILE_DEVICE_KS: u32 = 0x0000_002f;
pub const FILE_DEVICE_KSEC: u32 = 0x0000_0039;
pub const FILE_DEVICE_MAILSLOT: u32 = 0x0000_000c;
pub const FILE_DEVICE_MASS_STORAGE: u32 = 0x0000_002d;
pub const FILE_DEVICE_MIDI_IN: u32 = 0x0000_000d;
pub const FILE_DEVICE_MIDI_OUT: u32 = 0x0000_000e;
pub const FILE_DEVICE_MODEM: u32 = 0x0000_002b;
pub const FILE_DEVICE_MOUSE: u32 = 0x0000_000f;
pub const FILE_DEVICE_MULTI_UNC_PROVIDER: u32 = 0x0000_0010;
pub const FILE_DEVICE_NAMED_PIPE: u32 = 0x0000_0011;
pub const FILE_DEVICE_NETWORK: u32 = 0x0000_0012;
pub const FILE_DEVICE_NETWORK_BROWSER: u32 = 0x0000_0013;
pub const FILE_DEVICE_NETWORK_FILE_SYSTEM: u32 = 0x0000_0014;
pub const FILE_DEVICE_NETWORK_REDIRECTOR: u32 = 0x0000_0028;
pub const FILE_DEVICE_NULL: u32 = 0x0000_0015;
pub const FILE_DEVICE_PARALLEL_PORT: u32 = 0x0000_0016;
pub const FILE_DEVICE_PHYSICAL_NETCARD: u32 = 0x0000_0017;
pub const FILE_DEVICE_PRINTER: u32 = 0x0000_0018;
pub const FILE_DEVICE_SCANNER: u32 = 0x0000_0019;
pub const FILE_DEVICE_SCREEN: u32 = 0x0000_001c;
pub const FILE_DEVICE_SERENUM: u32 = 0x0000_0037;
pub const FILE_DEVICE_SERIAL_PORT: u32 = 0x0000_001b;
pub const FILE_DEVICE_SERIAL_MOUSE_PORT: u32 = 0x0000_001a;
pub const FILE_DEVICE_SMARTCARD: u32 = 0x0000_0031;
pub const FILE_DEVICE_SMB: u32 = 0x0000_002e;
pub const FILE_DEVICE_SOUND: u32 = 0x0000_001d;
pub const FILE_DEVICE_STREAMS: u32 = 0x0000_001e;
pub const FILE_DEVICE_TAPE: u32 = 0x0000_001f;
pub const FILE_DEVICE_TAPE_FILE_SYSTEM: u32 = 0x0000_0020;
pub const FILE_DEVICE_TERMSRV: u32 = 0x0000_0038;
pub const FILE_DEVICE_TRANSPORT: u32 = 0x0000_0021;
pub const FILE_DEVICE_UNKNOWN: u32 = 0x0000_0022;
pub const FILE_DEVICE_VDM: u32 = 0x0000_002c;
pub const FILE_DEVICE_VIDEO: u32 = 0x0000_0023;
pub const FILE_DEVICE_VIRTUAL_DISK: u32 = 0x0000_0024;
pub const FILE_DEVICE_WAVE_IN: u32 = 0x0000_0025;
pub const FILE_DEVICE_WAVE_OUT: u32 = 0x0000_0026;

/// The device-type tag of a device object, one tag per host device-type code.
#[derive(Copy, Clone, Debug, PartialEq, Eq, Structural)]
pub enum DeviceType {
    Port8042,
    Acpi,
    Battery,
    Beep,
    BusExtender,
    Cdrom,
    CdromFileSystem,
    Changer,
    Controller,
    DataLink,
    Dfs,
    DfsFileSystem,
    DfsVolume,
    Disk,
    DiskFileSystem,
    Dvd,
    FileSystem,
    Fips,
    FullscreenVideo,
    InportPort,
    Keyboard,
    Ks,
    Ksec,
    Mailslot,
    MassStorage,
    MidiIn,
    MidiOut,
    Modem,
    Mouse,
    MultiUncProvider,
    NamedPipe,
    Network,
    NetworkBrowser,
    NetworkFileSystem,
    NetworkRedirector,
    Null,
    ParallelPort,
    PhysicalNetcard,
    Printer,
    Scanner,
    Screen,
    Serenum,
    SerialPort,
    SerialMousePort,
    Smartcard,
    Smb,
    Sound,
    Streams,
    Tape,
    TapeFileSystem,
    Termsrv,
    Transport,
    Unknown,
    Vdm,
    Video,
    VirtualDisk,
    WaveIn,
    WaveOut,
}

/// The 32-bit host code of a device type.
pub open spec fn device_type_code(t: DeviceType) -> u32 {
    match t {
        DeviceType::Port8042 => FILE_DEVICE_8042_PORT,
        DeviceType::Acpi => FILE_DEVICE_ACPI,
        DeviceType::Battery => FILE_DEVICE_BATTERY,
        DeviceType::Beep => FILE_DEVICE_BEEP,
        DeviceType::BusExtender => FILE_DEVICE_BUS_EXTENDER,
        DeviceType::Cdrom => FILE_DEVICE_CD_ROM,
        DeviceType::CdromFileSystem => FILE_DEVICE_CD_ROM_FILE_SYSTEM,
        DeviceType::Changer => FILE_DEVICE_CHANGER,
        DeviceType::Controller => FILE_DEVICE_CONTROLLER,
        DeviceType::DataLink => FILE_DEVICE_DATALINK,
        DeviceType::Dfs => FILE_DEVICE_DFS,
        DeviceType::DfsFileSystem => FILE_DEVICE_DFS_FILE_SYSTEM,
        DeviceType::DfsVolume => FILE_DEVICE_DFS_VOLUME,
        DeviceType::Disk => FILE_DEVICE_DISK,
        DeviceType::DiskFileSystem => FILE_DEVICE_DISK_FILE_SYSTEM,
        DeviceType::Dvd => FILE_DEVICE_DVD,
        DeviceType::FileSystem => FILE_DEVICE_FILE_SYSTEM,
        DeviceType::Fips => FILE_DEVICE_FIPS,
        DeviceType::FullscreenVideo => FILE_DEVICE_FULLSCREEN_VIDEO,
        DeviceType::InportPort => FILE_DEVICE_INPORT_PORT,
        DeviceType::Keyboard => FILE_DEVICE_KEYBOARD,
        DeviceType::Ks => FILE_DEVICE_KS,
        DeviceType::Ksec => FILE_DEVICE_KSEC,
        DeviceType::Mailslot => FILE_DEVICE_MAILSLOT,
        DeviceType::MassStorage => FILE_DEVICE_MASS_STORAGE,
        DeviceType::MidiIn => FILE_DEVICE_MIDI_IN,
        DeviceType::MidiOut => FILE_DEVICE_MIDI_OUT,
        DeviceType::Modem => FILE_DEVICE_MODEM,
        DeviceType::Mouse => FILE_DEVICE_MOUSE,
        DeviceType::MultiUncProvider => FILE_DEVICE_MULTI_UNC_PROVIDER,
        DeviceType::NamedPipe => FILE_DEVICE_NAMED_PIPE,
        DeviceType::Network => FILE_DEVICE_NETWORK,
        DeviceType::NetworkBrowser => FILE_DEVICE_NETWORK_BROWSER,
        DeviceType::NetworkFileSystem => FILE_DEVICE_NETWORK_FILE_SYSTEM,
        DeviceType::NetworkRedirector => FILE_DEVICE_NETWORK_REDIRECTOR,
        DeviceType::Null => FILE_DEVICE_NULL,
        DeviceType::ParallelPort => FILE_DEVICE_PARALLEL_PORT,
        DeviceType::PhysicalNetcard => FILE_DEVICE_PHYSICAL_NETCARD,
        DeviceType::Printer => FILE_DEVICE_PRINTER,
        DeviceType::Scanner => FILE_DEVICE_SCANNER,
        DeviceType::Screen => FILE_DEVICE_SCREEN,
        DeviceType::Serenum => FILE_DEVICE_SERENUM,
        DeviceType::SerialPort => FILE_DEVICE_SERIAL_PORT,
        DeviceType::SerialMousePort => FILE_DEVICE_SERIAL_MOUSE_PORT,
        DeviceType::Smartcard => FILE_DEVICE_SMARTCARD,
        DeviceType::Smb => FILE_DEVICE_SMB,
        DeviceType::Sound => FILE_DEVICE_SOUND,
        DeviceType::Streams => FILE_DEVICE_STREAMS,
        DeviceType::Tape => FILE_DEVICE_TAPE,
        DeviceType::TapeFileSystem => FILE_DEVICE_TAPE_FILE_SYSTEM,
        DeviceType::Termsrv => FILE_DEVICE_TERMSRV,
        DeviceType::Transport => FILE_DEVICE_TRANSPORT,
        DeviceType::Unknown => FILE_DEVICE_UNKNOWN,
        DeviceType::Vdm => FILE_DEVICE_VDM,
        DeviceType::Video => FILE_DEVICE_VIDEO,
        DeviceType::VirtualDisk => FILE_DEVICE_VIRTUAL_DISK,
        DeviceType::WaveIn => FILE_DEVICE_WAVE_IN,
        DeviceType::WaveOut => FILE_DEVICE_WAVE_OUT,
    }
}

/// The device type a 32-bit host code stands for; an unrecognized code
/// coerces to `Unknown`.
pub open spec fn device_type_of_code(value: u32) -> DeviceType {
    if value == FILE_DEVICE_8042_PORT {
        DeviceType::Port8042
    } else if value == FILE_DEVICE_ACPI {
        DeviceType::Acpi
    } else if value == FILE_DEVICE_BATTERY {
        DeviceType::Battery
    } else if value == FILE_DEVICE_BEEP {
        DeviceType::Beep
    } else if value == FILE_DEVICE_BUS_EXTENDER {
        DeviceType::BusExtender
    } else if value == FILE_DEVICE_CD_ROM {
        DeviceType::Cdrom
    } else if value == FILE_DEVICE_CD_ROM_FILE_SYSTEM {
        DeviceType::CdromFileSystem
    } else if value == FILE_DEVICE_CHANGER {
        DeviceType::Changer
    } else if value == FILE_DEVICE_CONTROLLER {
        DeviceType::Controller
    } else if value == FILE_DEVICE_DATALINK {
        DeviceType::DataLink
    } else if value == FILE_DEVICE_DFS {
        DeviceType::Dfs
    } else if value == FILE_DEVICE_DFS_FILE_SYSTEM {
        DeviceType::DfsFileSystem
    } else if value == FILE_DEVICE_DFS_VOLUME {
        DeviceType::DfsVolume
    } else if value == FILE_DEVICE_DISK {
        DeviceType::Disk
    } else if value == FILE_DEVICE_DISK_FILE_SYSTEM {
        DeviceType::DiskFileSystem
    } else if value == FILE_DEVICE_DVD {
        DeviceType::Dvd
    } else if value == FILE_DEVICE_FILE_SYSTEM {
        DeviceType::FileSystem
    } else if value == FILE_DEVICE_FIPS {
        DeviceType::Fips
    } else if value == FILE_DEVICE_FULLSCREEN_VIDEO {
        DeviceType::FullscreenVideo
    } else if value == FILE_DEVICE_INPORT_PORT {
        DeviceType::InportPort
    } else if value == FILE_DEVICE_KEYBOARD {
        DeviceType::Keyboard
    } else if value == FILE_DEVICE_KS {
        DeviceType::Ks
    } else if value == FILE_DEVICE_KSEC {
        DeviceType::Ksec
    } else if value == FILE_DEVICE_MAILSLOT {
        DeviceType::Mailslot
    } else if value == FILE_DEVICE_MASS_STORAGE {
        DeviceType::MassStorage
    } else if value == FILE_DEVICE_MIDI_IN {
        DeviceType::MidiIn
    } else if value == FILE_DEVICE_MIDI_OUT {
        DeviceType::MidiOut
    } else if value == FILE_DEVICE_MODEM {
        DeviceType::Modem
    } else if value == FILE_DEVICE_MOUSE {
        DeviceType::Mouse
    } else if value == FILE_DEVICE_MULTI_UNC_PROVIDER {
        DeviceType::MultiUncProvider
    } else if value == FILE_DEVICE_NAMED_PIPE {
        DeviceType::NamedPipe
    } else if value == FILE_DEVICE_NETWORK {
        DeviceType::Network
    } else if value == FILE_DEVICE_NETWORK_BROWSER {
        DeviceType::NetworkBrowser
    } else if value == FILE_DEVICE_NETWORK_FILE_SYSTEM {
        DeviceType::NetworkFileSystem
    } else if value == FILE_DEVICE_NETWORK_REDIRECTOR {
        DeviceType::NetworkRedirector
    } else if value == FILE_DEVICE_NULL {
        DeviceType::Null
    } else if value == FILE_DEVICE_PARALLEL_PORT {
        DeviceType::ParallelPort
    } else if value == FILE_DEVICE_PHYSICAL_NETCARD {
        DeviceType::PhysicalNetcard
    } else if value == FILE_DEVICE_PRINTER {
        DeviceType::Printer
    } else if value == FILE_DEVICE_SCANNER {
        DeviceType::Scanner
    } else if value == FILE_DEVICE_SCREEN {
        DeviceType::Screen
    } else if value == FILE_DEVICE_SERENUM {
        DeviceType::Serenum
    } else if value == FILE_DEVICE_SERIAL_PORT {
        DeviceType::SerialPort
    } else if value == FILE_DEVICE_SERIAL_MOUSE_PORT {
        DeviceType::SerialMousePort
    } else if value == FILE_DEVICE_SMARTCARD {
        DeviceType::Smartcard
    } else if value == FILE_DEVICE_SMB {
        DeviceType::Smb
    } else if value == FILE_DEVICE_SOUND {
        DeviceType::Sound
    } else if value == FILE_DEVICE_STREAMS {
        DeviceType::Streams
    } else if value == FILE_DEVICE_TAPE {
        DeviceType::Tape
    } else if value == FILE_DEVICE_TAPE_FILE_SYSTEM {
        DeviceType::TapeFileSystem
    } else if value == FILE_DEVICE_TERMSRV {
        DeviceType::Termsrv
    } else if value == FILE_DEVICE_TRANSPORT {
        DeviceType::Transport
    } else if value == FILE_DEVICE_UNKNOWN {
        DeviceType::Unknown
    } else if value == FILE_DEVICE_VDM {
        DeviceType::Vdm
    } else if value == FILE_DEVICE_VIDEO {
        DeviceType::Video
    } else if value == FILE_DEVICE_VIRTUAL_DISK {
        DeviceType::VirtualDisk
    } else if value == FILE_DEVICE_WAVE_IN {
        DeviceType::WaveIn
    } else if value == FILE_DEVICE_WAVE_OUT {
        DeviceType::WaveOut
    } else {
        DeviceType::Unknown
    }
}

impl DeviceType {
    /// Returns the 32-bit host code of this device type.
    pub fn to_u32(self) -> (r: u32)
        ensures
            r == device_type_code(self),
    {
        match self {
        DeviceType::Port8042 => FILE_DEVICE_8042_PORT,
        DeviceType::Acpi => FILE_DEVICE_ACPI,
        DeviceType::Battery => FILE_DEVICE_BATTERY,
        DeviceType::Beep => FILE_DEVICE_BEEP,
        DeviceType::BusExtender => FILE_DEVICE_BUS_EXTENDER,
        DeviceType::Cdrom => FILE_DEVICE_CD_ROM,
        DeviceType::CdromFileSystem => FILE_DEVICE_CD_ROM_FILE_SYSTEM,
        DeviceType::Changer => FILE_DEVICE_CHANGER,
        DeviceType::Controller => FILE_DEVICE_CONTROLLER,
        DeviceType::DataLink => FILE_DEVICE_DATALINK,
        DeviceType::Dfs => FILE_DEVICE_DFS,
        DeviceType::DfsFileSystem => FILE_DEVICE_DFS_FILE_SYSTEM,
        DeviceType::DfsVolume => FILE_DEVICE_DFS_VOLUME,
        DeviceType::Disk => FILE_DEVICE_DISK,
        DeviceType::DiskFileSystem => FILE_DEVICE_DISK_FILE_SYSTEM,
        DeviceType::Dvd => FILE_DEVICE_DVD,
        DeviceType::FileSystem => FILE_DEVICE_FILE_SYSTEM,
        DeviceType::Fips => FILE_DEVICE_FIPS,
        DeviceType::FullscreenVideo => FILE_DEVICE_FULLSCREEN_VIDEO,
        DeviceType::InportPort => FILE_DEVICE_INPORT_PORT,
        DeviceType::Keyboard => FILE_DEVICE_KEYBOARD,
        DeviceType::Ks => FILE_DEVICE_KS,
        DeviceType::Ksec => FILE_DEVICE_KSEC,
        DeviceType::Mailslot => FILE_DEVICE_MAILSLOT,
        DeviceType::MassStorage => FILE_DEVICE_MASS_STORAGE,
        DeviceType::MidiIn => FILE_DEVICE_MIDI_IN,
        DeviceType::MidiOut => FILE_DEVICE_MIDI_OUT,
        DeviceType::Modem => FILE_DEVICE_MODEM,
        DeviceType::Mouse => FILE_DEVICE_MOUSE,
        DeviceType::MultiUncProvider => FILE_DEVICE_MULTI_UNC_PROVIDER,
        DeviceType::NamedPipe => FILE_DEVICE_NAMED_PIPE,
        DeviceType::Network => FILE_DEVICE_NETWORK,
        DeviceType::NetworkBrowser => FILE_DEVICE_NETWORK_BROWSER,
        DeviceType::NetworkFileSystem => FILE_DEVICE_NETWORK_FILE_SYSTEM,
        DeviceType::NetworkRedirector => FILE_DEVICE_NETWORK_REDIRECTOR,
        DeviceType::Null => FILE_DEVICE_NULL,
        DeviceType::ParallelPort => FILE_DEVICE_PARALLEL_PORT,
        DeviceType::PhysicalNetcard => FILE_DEVICE_PHYSICAL_NETCARD,
        DeviceType::Printer => FILE_DEVICE_PRINTER,
        DeviceType::Scanner => FILE_DEVICE_SCANNER,
        DeviceType::Screen => FILE_DEVICE_SCREEN,
        DeviceType::Serenum => FILE_DEVICE_SERENUM,
        DeviceType::SerialPort => FILE_DEVICE_SERIAL_PORT,
        DeviceType::SerialMousePort => FILE_DEVICE_SERIAL_MOUSE_PORT,
        DeviceType::Smartcard => FILE_DEVICE_SMARTCARD,
        DeviceType::Smb => FILE_DEVICE_SMB,
        DeviceType::Sound => FILE_DEVICE_SOUND,
        DeviceType::Streams => FILE_DEVICE_STREAMS,
        DeviceType::Tape => FILE_DEVICE_TAPE,
        DeviceType::TapeFileSystem => FILE_DEVICE_TAPE_FILE_SYSTEM,
        DeviceType::Termsrv => FILE_DEVICE_TERMSRV,
        DeviceType::Transport => FILE_DEVICE_TRANSPORT,
        DeviceType::Unknown => FILE_DEVICE_UNKNOWN,
        DeviceType::Vdm => FILE_DEVICE_VDM,
        DeviceType::Video => FILE_DEVICE_VIDEO,
        DeviceType::VirtualDisk => FILE_DEVICE_VIRTUAL_DISK,
        DeviceType::WaveIn => FILE_DEVICE_WAVE_IN,
        DeviceType::WaveOut => FILE_DEVICE_WAVE_OUT,
        }
    }

    /// Returns the device type a 32-bit host code stands for; an unrecognized
    /// code coerces to `Unknown`.
    pub fn from_u32(value: u32) -> (r: DeviceType)
        ensures
            r == device_type_of_code(value),
    {
        match value {
            FILE_DEVICE_8042_PORT => DeviceType::Port8042,
            FILE_DEVICE_ACPI => DeviceType::Acpi,
            FILE_DEVICE_BATTERY => DeviceType::Battery,
            FILE_DEVICE_BEEP => DeviceType::Beep,
            FILE_DEVICE_BUS_EXTENDER => DeviceType::BusExtender,
            FILE_DEVICE_CD_ROM => DeviceType::Cdrom,
            FILE_DEVICE_CD_ROM_FILE_SYSTEM => DeviceType::CdromFileSystem,
            FILE_DEVICE_CHANGER => DeviceType::Changer,
            FILE_DEVICE_CONTROLLER => DeviceType::Controller,
            FILE_DEVICE_DATALINK => DeviceType::DataLink,
            FILE_DEVICE_DFS => DeviceType::Dfs,
            FILE_DEVICE_DFS_FILE_SYSTEM => DeviceType::DfsFileSystem,
            FILE_DEVICE_DFS_VOLUME => DeviceType::DfsVolume,
            FILE_DEVICE_DISK => DeviceType::Disk,
            FILE_DEVICE_DISK_FILE_SYSTEM => DeviceType::DiskFileSystem,
            FILE_DEVICE_DVD => DeviceType::Dvd,
            FILE_DEVICE_FILE_SYSTEM => DeviceType::FileSystem,
            FILE_DEVICE_FIPS => DeviceType::Fips,
            FILE_DEVICE_FULLSCREEN_VIDEO => DeviceType::FullscreenVideo,
            FILE_DEVICE_INPORT_PORT => DeviceType::InportPort,
            FILE_DEVICE_KEYBOARD => DeviceType::Keyboard,
            FILE_DEVICE_KS => DeviceType::Ks,
            FILE_DEVICE_KSEC => DeviceType::Ksec,
            FILE_DEVICE_MAILSLOT => DeviceType::Mailslot,
            FILE_DEVICE_MASS_STORAGE => DeviceType::MassStorage,
            FILE_DEVICE_MIDI_IN => DeviceType::MidiIn,
            FILE_DEVICE_MIDI_OUT => DeviceType::MidiOut,
            FILE_DEVICE_MODEM => DeviceType::Modem,
            FILE_DEVICE_MOUSE => DeviceType::Mouse,
            FILE_DEVICE_MULTI_UNC_PROVIDER => DeviceType::MultiUncProvider,
            FILE_DEVICE_NAMED_PIPE => DeviceType::NamedPipe,
            FILE_DEVICE_NETWORK => DeviceType::Network,
            FILE_DEVICE_NETWORK_BROWSER => DeviceType::NetworkBrowser,
            FILE_DEVICE_NETWORK_FILE_SYSTEM => DeviceType::NetworkFileSystem,
            FILE_DEVICE_NETWORK_REDIRECTOR => DeviceType::NetworkRedirector,
            FILE_DEVICE_NULL => DeviceType::Null,
            FILE_DEVICE_PARALLEL_PORT => DeviceType::ParallelPort,
            FILE_DEVICE_PHYSICAL_NETCARD => DeviceType::PhysicalNetcard,
            FILE_DEVICE_PRINTER => DeviceType::Printer,
            FILE_DEVICE_SCANNER => DeviceType::Scanner,
            FILE_DEVICE_SCREEN => DeviceType::Screen,
            FILE_DEVICE_SERENUM => DeviceType::Serenum,
            FILE_DEVICE_SERIAL_PORT => DeviceType::SerialPort,
            FILE_DEVICE_SERIAL_MOUSE_PORT => DeviceType::SerialMousePort,
            FILE_DEVICE_SMARTCARD => DeviceType::Smartcard,
            FILE_DEVICE_SMB => DeviceType::Smb,
            FILE_DEVICE_SOUND => DeviceType::Sound,
            FILE_DEVICE_STREAMS => DeviceType::Streams,
            FILE_DEVICE_TAPE => DeviceType::Tape,
            FILE_DEVICE_TAPE_FILE_SYSTEM => DeviceType::TapeFileSystem,
            FILE_DEVICE_TERMSRV => DeviceType::Termsrv,
            FILE_DEVICE_TRANSPORT => DeviceType::Transport,
            FILE_DEVICE_UNKNOWN => DeviceType::Unknown,
            FILE_DEVICE_VDM => DeviceType::Vdm,
            FILE_DEVICE_VIDEO => DeviceType::Video,
            FILE_DEVICE_VIRTUAL_DISK => DeviceType::VirtualDisk,
            FILE_DEVICE_WAVE_IN => DeviceType::WaveIn,
            FILE_DEVICE_WAVE_OUT => DeviceType::WaveOut,
            _ => DeviceType::Unknown,
        }
    }
}

/// Every device-type code fits in the 16 bits a control code reserves for it.
pub proof fn lemma_device_type_code_bound(t: DeviceType)
    ensures
        device_type_code(t) < 0x10000,
{
}

/// Encoding a device type as its host code and reading it back yields the
/// same device type, for every device type.
pub proof fn lemma_device_type_code_round_trip(t: DeviceType)
    ensures
        device_type_of_code(device_type_code(t)) == t,
{
}

/// The host flag asked for at device creation so that open-by-name checks the
/// device's security descriptor.
pub const FILE_DEVICE_SECURE_OPEN: u32 = 0x0000_0100;

/// All bits a [`DeviceFlags`] set may carry.
pub const DEVICE_FLAGS_ALL: u32 = FILE_DEVICE_SECURE_OPEN;

/// The host flag selecting buffered I/O for a device.
pub const DO_BUFFERED_IO: u32 = 0x0000_0004;

/// The host flag selecting direct I/O for a device.
pub const DO_DIRECT_IO: u32 = 0x0000_0010;

/// All bits a [`DeviceDoFlags`] set may carry.
pub const DEVICE_DO_FLAGS_ALL: u32 = DO_BUFFERED_IO | DO_DIRECT_IO;

/// The flag set handed to the host when a device is created.
#[derive(Copy, Clone, Debug, PartialEq, Eq, Structural)]
pub struct DeviceFlags {
    pub bits: u32,
}

impl DeviceFlags {
    /// The empty flag set.
    pub fn empty() -> (r: DeviceFlags)
        ensures
            r.bits == 0,
    {
        DeviceFlags { bits: 0 }
    }

    /// The flag set holding only the secure-open bit.
    pub fn secure_open() -> (r: DeviceFlags)
        ensures
            r.bits == FILE_DEVICE_SECURE_OPEN,
    {
        DeviceFlags { bits: FILE_DEVICE_SECURE_OPEN }
    }

    /// The raw bits of this flag set.
    pub fn bits(&self) -> (r: u32)
        ensures
            r == self.bits,
    {
        self.bits
    }

    /// Builds a flag set from raw bits; `None` if a bit outside the named
    /// flags is set.
    pub fn from_bits(bits: u32) -> (r: Option<DeviceFlags>)
        ensures
            r matches Some(f) ==> f.bits == bits,
            r is Some <==> bits & !DEVICE_FLAGS_ALL == 0,
    {
        if bits & !DEVICE_FLAGS_ALL == 0 {
            Some(DeviceFlags { bits })
        } else {
            None
        }
    }

    /// Returns whether every bit of `other` is set in this flag set.
    pub fn contains(&self, other: DeviceFlags) -> (r: bool)
        ensures
            r == (self.bits & other.bits == other.bits),
    {
        self.bits & other.bits == other.bits
    }

    /// The union of the two flag sets.
    pub fn union(&self, other: DeviceFlags) -> (r: DeviceFlags)
        ensures
            r.bits == self.bits | other.bits,
    {
        DeviceFlags { bits: self.bits | other.bits }
    }
}

/// The flag set OR-ed into a freshly created device's flags, selecting how
/// the host exposes buffers to the device's handlers.
#[derive(Copy, Clone, Debug, PartialEq, Eq, Structural)]
pub struct DeviceDoFlags {
    pub bits: u32,
}

impl DeviceDoFlags {
    /// The empty flag set.
    pub fn empty() -> (r: DeviceDoFlags)
        ensures
            r.bits == 0,
    {
        DeviceDoFlags { bits: 0 }
    }

    /// The flag set holding only the buffered-I/O bit.
    pub fn buffered_io() -> (r: DeviceDoFlags)
        ensures
            r.bits == DO_BUFFERED_IO,
    {
        DeviceDoFlags { bits: DO_BUFFERED_IO }
    }

    /// The flag set holding only the direct-I/O bit.
    pub fn direct_io() -> (r: DeviceDoFlags)
        ensures
            r.bits == DO_DIRECT_IO,
    {
        DeviceDoFlags { bits: DO_DIRECT_IO }
    }

    /// The raw bits of this flag set.
    pub fn bits(&self) -> (r: u32)
        ensures
            r == self.bits,
    {
        self.bits
    }

    /// Builds a flag set from raw bits; `None` if a bit outside the named
    /// flags is set.
    pub fn from_bits(bits: u32) -> (r: Option<DeviceDoFlags>)
        ensures
            r matches Some(f) ==> f.bits == bits,
            r is Some <==> bits & !DEVICE_DO_FLAGS_ALL == 0,
    {
        if bits & !DEVICE_DO_FLAGS_ALL == 0 {
            Some(DeviceDoFlags { bits })
        } else {
            None
        }
    }

    /// Returns whether every bit of `other` is set in this flag set.
    pub fn contains(&self, other: DeviceDoFlags) -> (r: bool)
        ensures
            r == (self.bits & other.bits == other.bits),
    {
        self.bits & other.bits == other.bits
    }

    /// The union of the two flag sets.
    pub fn union(&self, other: DeviceDoFlags) -> (r: DeviceDoFlags)
        ensures
            r.bits == self.bits | other.bits,
    {
        DeviceDoFlags { bits: self.bits | other.bits }
    }
}

/// What a handler may read of the device it serves while handling one
/// request: the device-type tag and the device's flags.
#[derive(Copy, Clone, Debug)]
pub struct DeviceInfo {
    pub device_type: DeviceType,
    pub flags: u32,
}

/// The per-device extension block: the device-type tag and the handler
/// state. The state is installed exactly once, at creation, and reclaimed
/// exactly once, during release; `None` models the reclaimed state.
#[derive(Debug)]
pub struct DeviceExtension<T> {
    pub device_type: DeviceType,
    pub data: Option<T>,
}

/// A device object owning its extension block for its whole lifetime.
///
/// The host may dispatch packets to one device concurrently from its own
/// threads; this model hands out the handler state behind an exclusive
/// borrow, so a caller standing in for the host serializes dispatches to one
/// device, and a handler type adds any synchronization of its own state that
/// it needs beyond that.
#[derive(Debug)]
pub struct Device<T> {
    pub flags: u32,
    pub extension: DeviceExtension<T>,
}

impl<T> Device<T> {
    /// A live device's handler state is present: it is installed at creation
    /// and reclaimed only by teardown, which consumes the device.
    pub open spec fn wf(&self) -> bool {
        self.extension.data is Some
    }

    /// The device's extension block.
    pub fn extension(&self) -> (r: &DeviceExtension<T>)
        ensures
            *r == self.extension,
    {
        &self.extension
    }

    /// The device's extension block, mutably.
    pub fn extension_mut(&mut self) -> (r: &mut DeviceExtension<T>)
        ensures
            *r == old(self).extension,
            final(self).extension == *final(r),
            final(self).flags == old(self).flags,
    {
        &mut self.extension
    }

    /// The device's device-type tag.
    pub fn device_type(&self) -> (r: DeviceType)
        ensures
            r == self.extension.device_type,
    {
        self.extension.device_type
    }

    /// What a handler may read of this device.
    pub fn info(&self) -> (r: DeviceInfo)
        ensures
            r.device_type == self.extension.device_type,
            r.flags == self.flags,
    {
        DeviceInfo { device_type: self.extension.device_type, flags: self.flags }
    }

    /// The handler state of a live device.
    pub fn data(&self) -> (r: &T)
        requires
            self.wf(),
        ensures
            *r == self.extension.data.unwrap(),
    {
        match &self.extension.data {
            Some(d) => d,
            None => unreached(),
        }
    }

    /// The handler state of a live device, mutably. The borrow is exclusive:
    /// nothing else reads or writes the state while it lives.
    pub fn data_mut(&mut self) -> (r: &mut T)
        requires
            old(self).wf(),
        ensures
            *r == old(self).extension.data.unwrap(),
            final(self).flags == old(self).flags,
            final(self).extension.device_type == old(self).extension.device_type,
            final(self).extension.data == Some(*final(r)),
    {
        match &mut self.extension.data {
            Some(d) => d,
            None => unreached(),
        }
    }

    /// Tears a live device down: invokes the release path, which reclaims
    /// and destroys the handler state, and only then asks the host to delete
    /// the device object — in that order, because destroying the state may
    /// still need the device. Consuming the device makes a second teardown
    /// impossible, so each of the two host calls happens exactly once.
    pub fn teardown(self, log: &mut Vec<HostEvent>)
        requires
            self.wf(),
        ensures
            final(log)@ == old(log)@.push(HostEvent::ReleaseInvoked).push(HostEvent::DeleteDevice),
    {
        let Device { flags: _, mut extension } = self;
        release_callback(&mut extension, log);
        log.push(HostEvent::DeleteDevice);
    }
}

/// The release path of a device: takes the handler state out of the
/// extension and destroys it. Runs at most once per device, on a live
/// extension; afterward the extension holds no state.
fn release_callback<T>(extension: &mut DeviceExtension<T>, log: &mut Vec<HostEvent>)
    requires
        old(extension).data is Some,
    ensures
        final(extension).data is None,
        final(extension).device_type == old(extension).device_type,
        final(log)@ == old(log)@.push(HostEvent::ReleaseInvoked),
{
    extension.data = None;
    log.push(HostEvent::ReleaseInvoked);
}

/// An error a handler reports for a request, carrying the request back so
/// that the dispatch path can finalize it.
#[derive(Debug)]
pub struct RequestError(pub Error, pub IoRequest);

/// The successful outcome of a handler: the transferred byte count, carrying
/// the request back so that the dispatch path can finalize it.
#[derive(Debug)]
pub enum Completion {
    Complete(u32, IoRequest),
}

/// The request a handler outcome carries back, whichever of the two outcomes
/// it is.
pub open spec fn returned_request(r: Result<Completion, RequestError>) -> IoRequest {
    match r {
        Ok(Completion::Complete(_, request)) => request,
        Err(RequestError(_, request)) => request,
    }
}

/// The operations a handler type supplies, one per recognized major code.
///
/// Each operation receives what it may read of the device and the typed view
/// of the request, and produces exactly one of the two outcomes — completed
/// with a byte count, or failed with an error — carrying the request it was
/// given back to the dispatch path, which finalizes it exactly once. Every
/// operation has a safe default that succeeds with zero bytes transferred.
///
/// The host dispatches from its own threads, so a handler type must be safe
/// to share; the framework serializes access to the state it hands one
/// dispatch, and any further serialization is the handler author's own.
pub trait DeviceOperations: Sync + Sized {
    /// Responds to a create operation.
    fn create(&mut self, device: &DeviceInfo, request: IoRequest) -> (r: Result<
        Completion,
        RequestError,
    >)
        ensures
            returned_request(r) == request,
        default_ensures
            r == Ok::<Completion, RequestError>(Completion::Complete(0, request)),
    {
        Ok(Completion::Complete(0, request))
    }

    /// Responds to a close operation.
    fn close(&mut self, device: &DeviceInfo, request: IoRequest) -> (r: Result<
        Completion,
        RequestError,
    >)
        ensures
            returned_request(r) == request,
        default_ensures
            r == Ok::<Completion, RequestError>(Completion::Complete(0, request)),
    {
        Ok(Completion::Complete(0, request))
    }

    /// Responds to a cleanup operation.
    fn cleanup(&mut self, device: &DeviceInfo, request: IoRequest) -> (r: Result<
        Completion,
        RequestError,
    >)
        ensures
            returned_request(r) == request,
        default_ensures
            r == Ok::<Completion, RequestError>(Completion::Complete(0, request)),
    {
        Ok(Completion::Complete(0, request))
    }

    /// Responds to a read operation.
    fn read(&mut self, device: &DeviceInfo, request: ReadRequest) -> (r: Result<
        Completion,
        RequestError,
    >)
        requires
            request.wf(),
        ensures
            returned_request(r) == request.inner,
        default_ensures
            r == Ok::<Completion, RequestError>(Completion::Complete(0, request.inner)),
    {
        Ok(Completion::Complete(0, request.into_inner()))
    }

    /// Responds to a write operation.
    fn write(&mut self, device: &DeviceInfo, request: WriteRequest) -> (r: Result<
        Completion,
        RequestError,
    >)
        requires
            request.wf(),
        ensures
            returned_request(r) == request.inner,
        default_ensures
            r == Ok::<Completion, RequestError>(Completion::Complete(0, request.inner)),
    {
        Ok(Completion::Complete(0, request.into_inner()))
    }

    /// Responds to a device-control operation.
    fn ioctl(&mut self, device: &DeviceInfo, request: IoControlRequest) -> (r: Result<
        Completion,
        RequestError,
    >)
        requires
            request.wf(),
        ensures
            returned_request(r) == request.inner,
        default_ensures
            r == Ok::<Completion, RequestError>(Completion::Complete(0, request.inner)),
    {
        Ok(Completion::Complete(0, request.into_inner()))
    }
}

} // verus!
