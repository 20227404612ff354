use win_kernel::device::{
    Access, Completion, Device, DeviceDoFlags, DeviceExtension, DeviceFlags, DeviceInfo,
    DeviceOperations, DeviceType, RequestError, DO_BUFFERED_IO, FILE_DEVICE_SECURE_OPEN,
};
use win_kernel::driver::Driver;
use win_kernel::error::{STATUS_INSUFFICIENT_RESOURCES, STATUS_SUCCESS};
use win_kernel::host::HostEvent;
use win_kernel::request::IoRequest;

#[derive(Debug)]
struct Echo;

impl DeviceOperations for Echo {}

#[allow(dead_code)]
struct Noisy {
    label: u32,
}

impl DeviceOperations for Noisy {
    fn create(
        &mut self,
        _device: &DeviceInfo,
        request: IoRequest,
    ) -> Result<Completion, RequestError> {
        Ok(Completion::Complete(0, request))
    }
}

#[test]
fn create_then_teardown_releases_once_then_deletes() {
    let mut driver = Driver::new();
    let mut log: Vec<HostEvent> = Vec::new();
    let device = driver
        .create_device(
            "\\Device\\Echo",
            DeviceType::Null,
            DeviceFlags::secure_open(),
            DeviceDoFlags::buffered_io(),
            Access::NonExclusive,
            Echo,
            STATUS_SUCCESS,
            &mut log,
        )
        .unwrap();
    device.teardown(&mut log);
    assert_eq!(log.len(), 3);
    assert!(matches!(log[0], HostEvent::CreateDevice { .. }));
    assert_eq!(log[1], HostEvent::ReleaseInvoked);
    assert_eq!(log[2], HostEvent::DeleteDevice);
}

#[test]
fn create_device_installs_the_extension() {
    let mut driver = Driver::new();
    let mut log: Vec<HostEvent> = Vec::new();
    let device = driver
        .create_device(
            "\\Device\\Echo",
            DeviceType::Keyboard,
            DeviceFlags::empty(),
            DeviceDoFlags::buffered_io(),
            Access::Exclusive,
            Noisy { label: 7 },
            STATUS_SUCCESS,
            &mut log,
        )
        .unwrap();
    assert_eq!(device.device_type(), DeviceType::Keyboard);
    assert_eq!(device.flags, DO_BUFFERED_IO);
    assert_eq!(device.data().label, 7);
    assert_eq!(device.extension().device_type, DeviceType::Keyboard);
    device.teardown(&mut log);
}

#[test]
fn create_device_records_the_host_call() {
    let mut driver = Driver::new();
    let mut log: Vec<HostEvent> = Vec::new();
    let device = driver
        .create_device(
            "ab",
            DeviceType::Null,
            DeviceFlags::secure_open(),
            DeviceDoFlags::empty(),
            Access::Exclusive,
            Echo,
            STATUS_SUCCESS,
            &mut log,
        )
        .unwrap();
    assert_eq!(
        log[0],
        HostEvent::CreateDevice {
            name_length: 4,
            device_type_code: 0x15,
            flags: FILE_DEVICE_SECURE_OPEN,
            exclusive: true,
        }
    );
    device.teardown(&mut log);
}

#[test]
fn create_device_surfaces_the_host_failure() {
    let mut driver = Driver::new();
    let mut log: Vec<HostEvent> = Vec::new();
    let r = driver.create_device(
        "\\Device\\Echo",
        DeviceType::Null,
        DeviceFlags::empty(),
        DeviceDoFlags::empty(),
        Access::NonExclusive,
        Echo,
        STATUS_INSUFFICIENT_RESOURCES,
        &mut log,
    );
    assert_eq!(r.unwrap_err().to_ntstatus(), STATUS_INSUFFICIENT_RESOURCES);
    // The creation call was still made, and nothing was released or deleted.
    assert_eq!(log.len(), 1);
    assert!(matches!(log[0], HostEvent::CreateDevice { .. }));
}

#[test]
fn hand_built_device_tears_down_in_order() {
    let device = Device {
        flags: 0,
        extension: DeviceExtension { device_type: DeviceType::Null, data: Some(Echo) },
    };
    let mut log: Vec<HostEvent> = Vec::new();
    device.teardown(&mut log);
    assert_eq!(log, vec![HostEvent::ReleaseInvoked, HostEvent::DeleteDevice]);
}
