use win_kernel::device::{
    Access, Completion, Device, DeviceDoFlags, DeviceExtension, DeviceFlags, DeviceInfo,
    DeviceOperations, DeviceType, RequestError,
};
use win_kernel::dispatch::dispatch_device;
use win_kernel::driver::Driver;
use win_kernel::error::{Error, STATUS_END_OF_FILE, STATUS_INVALID_PARAMETER, STATUS_SUCCESS};
use win_kernel::host::HostEvent;
use win_kernel::ioctl::{ControlCode, RequiredAccess, TransferMethod};
use win_kernel::request::{
    IoControlRequest, IoRequest, IoStatusBlock, Irp, ReadRequest, StackLocation, StackParameters,
    IRP_MJ_CLEANUP, IRP_MJ_CLOSE, IRP_MJ_CREATE, IRP_MJ_DEVICE_CONTROL, IRP_MJ_MAXIMUM_FUNCTION,
    IRP_MJ_READ,
};

#[derive(Default)]
struct CountingHandler {
    creates: u32,
    closes: u32,
    cleanups: u32,
    reads: u32,
    ioctls: u32,
}

impl DeviceOperations for CountingHandler {
    fn create(
        &mut self,
        _device: &DeviceInfo,
        request: IoRequest,
    ) -> Result<Completion, RequestError> {
        self.creates += 1;
        Ok(Completion::Complete(0, request))
    }

    fn close(
        &mut self,
        _device: &DeviceInfo,
        request: IoRequest,
    ) -> Result<Completion, RequestError> {
        self.closes += 1;
        Ok(Completion::Complete(0, request))
    }

    fn cleanup(
        &mut self,
        _device: &DeviceInfo,
        request: IoRequest,
    ) -> Result<Completion, RequestError> {
        self.cleanups += 1;
        Ok(Completion::Complete(0, request))
    }

    fn read(
        &mut self,
        _device: &DeviceInfo,
        request: ReadRequest,
    ) -> Result<Completion, RequestError> {
        self.reads += 1;
        Ok(Completion::Complete(42, request.into_inner()))
    }

    fn ioctl(
        &mut self,
        _device: &DeviceInfo,
        request: IoControlRequest,
    ) -> Result<Completion, RequestError> {
        self.ioctls += 1;
        Err(RequestError(
            Error::from_ntstatus(STATUS_END_OF_FILE),
            request.into_inner(),
        ))
    }
}

fn null_device(handler: CountingHandler) -> Device<CountingHandler> {
    Device {
        flags: 0,
        extension: DeviceExtension { device_type: DeviceType::Null, data: Some(handler) },
    }
}

fn plain_irp(major: u8) -> Irp {
    let parameters = match major {
        IRP_MJ_READ => StackParameters::Read { length: 0, byte_offset: 0 },
        _ => StackParameters::Other,
    };
    Irp {
        flags: 0,
        system_buffer: 0,
        mdl: None,
        stack: StackLocation { major, parameters },
        io_status: IoStatusBlock { information: 0, status: 0 },
        completed: false,
    }
}

fn control_irp(device_type: DeviceType) -> Irp {
    let cc = ControlCode::new(device_type, RequiredAccess::Any, 0x42, TransferMethod::Buffered)
        .unwrap();
    Irp {
        flags: 0,
        system_buffer: 0,
        mdl: None,
        stack: StackLocation {
            major: IRP_MJ_DEVICE_CONTROL,
            parameters: StackParameters::DeviceIoControl {
                io_control_code: cc.encode(),
                input_buffer_length: 0,
                output_buffer_length: 0,
            },
        },
        io_status: IoStatusBlock { information: 0, status: 0 },
        completed: false,
    }
}

#[test]
fn read_reply_reaches_the_host() {
    // A handler configured to answer a read with 42 transferred bytes: the
    // host sees a success status and a byte count of 42, and the handler's
    // close and cleanup stay untouched.
    let mut device = null_device(CountingHandler::default());
    let mut log: Vec<HostEvent> = Vec::new();
    let (status, irp) = dispatch_device(
        &mut device,
        IoRequest::from_raw(plain_irp(IRP_MJ_READ)),
        &mut log,
    );
    assert_eq!(status, STATUS_SUCCESS);
    assert!(irp.completed);
    assert_eq!(irp.io_status.status, STATUS_SUCCESS);
    assert_eq!(irp.io_status.information, 42);
    assert_eq!(log, vec![HostEvent::CompleteRequest { status: STATUS_SUCCESS, information: 42 }]);
    let handler = device.data();
    assert_eq!(handler.reads, 1);
    assert_eq!(handler.closes, 0);
    assert_eq!(handler.cleanups, 0);
}

#[test]
fn create_close_cleanup_reach_their_operations() {
    let mut device = null_device(CountingHandler::default());
    let mut log: Vec<HostEvent> = Vec::new();
    dispatch_device(&mut device, IoRequest::from_raw(plain_irp(IRP_MJ_CREATE)), &mut log);
    dispatch_device(&mut device, IoRequest::from_raw(plain_irp(IRP_MJ_CLOSE)), &mut log);
    dispatch_device(&mut device, IoRequest::from_raw(plain_irp(IRP_MJ_CLEANUP)), &mut log);
    let handler = device.data();
    assert_eq!(handler.creates, 1);
    assert_eq!(handler.closes, 1);
    assert_eq!(handler.cleanups, 1);
    assert_eq!(handler.reads, 0);
    assert_eq!(log.len(), 3);
}

#[test]
fn handler_failure_maps_to_its_status_and_zero_bytes() {
    let mut device = null_device(CountingHandler::default());
    let mut log: Vec<HostEvent> = Vec::new();
    let (status, irp) = dispatch_device(
        &mut device,
        IoRequest::from_raw(control_irp(DeviceType::Null)),
        &mut log,
    );
    assert_eq!(device.data().ioctls, 1);
    assert_eq!(status, STATUS_END_OF_FILE);
    assert!(irp.completed);
    assert_eq!(irp.io_status.status, STATUS_END_OF_FILE);
    assert_eq!(irp.io_status.information, 0);
    assert_eq!(
        log,
        vec![HostEvent::CompleteRequest { status: STATUS_END_OF_FILE, information: 0 }]
    );
}

#[test]
fn device_type_mismatch_rejects_before_the_handler() {
    let mut device = null_device(CountingHandler::default());
    let mut log: Vec<HostEvent> = Vec::new();
    let (status, irp) = dispatch_device(
        &mut device,
        IoRequest::from_raw(control_irp(DeviceType::Keyboard)),
        &mut log,
    );
    assert_eq!(status, STATUS_INVALID_PARAMETER);
    assert!(irp.completed);
    assert_eq!(irp.io_status.information, 0);
    assert_eq!(device.data().ioctls, 0);
    assert_eq!(
        log,
        vec![HostEvent::CompleteRequest { status: STATUS_INVALID_PARAMETER, information: 0 }]
    );
}

#[test]
fn matching_device_type_invokes_the_handler() {
    let mut device = null_device(CountingHandler::default());
    let mut log: Vec<HostEvent> = Vec::new();
    dispatch_device(&mut device, IoRequest::from_raw(control_irp(DeviceType::Null)), &mut log);
    assert_eq!(device.data().ioctls, 1);
}

#[test]
fn unrecognized_major_code_rejects_and_still_completes() {
    let mut device = null_device(CountingHandler::default());
    let mut log: Vec<HostEvent> = Vec::new();
    let (status, irp) = dispatch_device(
        &mut device,
        IoRequest::from_raw(plain_irp(IRP_MJ_MAXIMUM_FUNCTION)),
        &mut log,
    );
    assert_eq!(status, STATUS_INVALID_PARAMETER);
    assert!(irp.completed);
    assert_eq!(irp.io_status.status, STATUS_INVALID_PARAMETER);
    assert_eq!(irp.io_status.information, 0);
    let handler = device.data();
    assert_eq!(
        (handler.creates, handler.closes, handler.cleanups, handler.reads, handler.ioctls),
        (0, 0, 0, 0, 0)
    );
    assert_eq!(
        log,
        vec![HostEvent::CompleteRequest { status: STATUS_INVALID_PARAMETER, information: 0 }]
    );
}

#[test]
fn every_dispatch_completes_exactly_once() {
    let mut device = null_device(CountingHandler::default());
    let mut log: Vec<HostEvent> = Vec::new();
    let majors = [IRP_MJ_CREATE, IRP_MJ_READ, IRP_MJ_MAXIMUM_FUNCTION, IRP_MJ_CLOSE, 0x07];
    for (i, major) in majors.into_iter().enumerate() {
        let (_, irp) = dispatch_device(
            &mut device,
            IoRequest::from_raw(plain_irp(major)),
            &mut log,
        );
        assert!(irp.completed);
        assert_eq!(log.len(), i + 1);
        assert!(matches!(log[i], HostEvent::CompleteRequest { .. }));
    }
}

struct DefaultHandler;

impl DeviceOperations for DefaultHandler {}

#[test]
fn default_operations_succeed_with_zero_bytes() {
    let mut device = Device {
        flags: 0,
        extension: DeviceExtension { device_type: DeviceType::Null, data: Some(DefaultHandler) },
    };
    let mut log: Vec<HostEvent> = Vec::new();
    for major in [IRP_MJ_CREATE, IRP_MJ_READ, IRP_MJ_CLOSE, IRP_MJ_CLEANUP] {
        let (status, irp) = dispatch_device(
            &mut device,
            IoRequest::from_raw(plain_irp(major)),
            &mut log,
        );
        assert_eq!(status, STATUS_SUCCESS);
        assert_eq!(irp.io_status.information, 0);
        assert!(irp.completed);
    }
}

#[test]
fn dispatch_preserves_the_packet_but_for_its_outcome() {
    let mut device = null_device(CountingHandler::default());
    let mut log: Vec<HostEvent> = Vec::new();
    let mut irp = plain_irp(IRP_MJ_READ);
    irp.flags = 0x11;
    irp.system_buffer = 0x1234;
    let (_, out) = dispatch_device(&mut device, IoRequest::from_raw(irp), &mut log);
    assert_eq!(out.flags, 0x11);
    assert_eq!(out.system_buffer, 0x1234);
    assert_eq!(out.stack.major, IRP_MJ_READ);
}

#[test]
fn created_device_dispatches_like_a_hand_built_one() {
    let mut driver = Driver::new();
    let mut log: Vec<HostEvent> = Vec::new();
    let mut device = driver
        .create_device(
            "\\Device\\Echo",
            DeviceType::Null,
            DeviceFlags::secure_open(),
            DeviceDoFlags::buffered_io(),
            Access::NonExclusive,
            CountingHandler::default(),
            STATUS_SUCCESS,
            &mut log,
        )
        .unwrap();
    let (status, _) = dispatch_device(
        &mut device,
        IoRequest::from_raw(plain_irp(IRP_MJ_READ)),
        &mut log,
    );
    assert_eq!(status, STATUS_SUCCESS);
    assert_eq!(device.data().reads, 1);
}
