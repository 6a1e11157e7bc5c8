use tinyusb::descriptor::DeviceDescriptor;
use tinyusb::host::{Enumerator, HostAction, HostError, PortStatus};
use tinyusb::types::Speed;

#[test]
fn test_port_status_creation() {
    let status = PortStatus { connected: true, speed: Speed::High, enabled: true, suspended: false };
    assert!(status.connected);
    assert_eq!(status.speed, Speed::High);
}

fn device_descriptor_bytes(mps0: u8) -> [u8; 18] {
    let d = DeviceDescriptor {
        bcd_usb: 0x0200,
        b_device_class: 0,
        b_device_sub_class: 0,
        b_device_protocol: 0,
        b_max_packet_size0: mps0,
        id_vendor: 0xCAFE,
        id_product: 0x4000,
        bcd_device: 0x0100,
        i_manufacturer: 1,
        i_product: 2,
        i_serial_number: 3,
        b_num_configurations: 1,
    };
    let mut b = [0u8; 18];
    d.to_bytes(&mut b);
    b
}

fn status(connected: bool) -> PortStatus {
    PortStatus { connected, speed: Speed::Full, enabled: connected, suspended: false }
}

/// Runs one enumeration against a well-behaved device.
fn enumerate(e: &mut Enumerator<2>, speed: Speed) -> (u8, u16, u16, HostAction) {
    let buf = device_descriptor_bytes(16);
    assert!(matches!(e.start(), HostAction::ReadPortStatus));
    assert!(matches!(e.on_port_status(status(false)), HostAction::Delay(50)));
    assert!(matches!(e.on_delay_done(), HostAction::ReadPortStatus));
    assert!(matches!(e.on_port_status(status(true)), HostAction::Delay(100)));
    assert!(matches!(e.on_delay_done(), HostAction::ResetPort));
    assert!(matches!(e.on_reset(Ok(speed)), HostAction::Delay(20)));
    let mps_default = match e.on_delay_done() {
        HostAction::OpenPipe(0, d) => d.w_max_packet_size,
        other => panic!("unexpected {:?}", other),
    };
    match e.on_pipe_opened(Ok(())) {
        HostAction::Transfer(s) => assert_eq!((s.request_type, s.request, s.value, s.length), (0x80, 6, 0x0100, 8)),
        other => panic!("unexpected {:?}", other),
    }
    let addr = match e.on_transfer(Ok(8), &buf) {
        HostAction::Transfer(s) => {
            assert_eq!((s.request_type, s.request, s.length), (0, 5, 0));
            s.value as u8
        }
        other => panic!("unexpected {:?}", other),
    };
    assert!(matches!(e.on_transfer(Ok(0), &buf), HostAction::Delay(10)));
    let mps_final = match e.on_delay_done() {
        HostAction::OpenPipe(a, d) => {
            assert_eq!(a, addr);
            d.w_max_packet_size
        }
        other => panic!("unexpected {:?}", other),
    };
    match e.on_pipe_opened(Ok(())) {
        HostAction::Transfer(s) => assert_eq!(s.length, 18),
        other => panic!("unexpected {:?}", other),
    }
    let done = e.on_transfer(Ok(18), &buf);
    (addr, mps_default, mps_final, done)
}

#[test]
fn enumeration_assigns_addresses_and_records_devices() {
    let mut e = Enumerator::<2>::new();
    let (addr, mps_default, mps_final, done) = enumerate(&mut e, Speed::Low);
    assert_eq!((addr, mps_default, mps_final), (1, 8, 16));
    match done {
        HostAction::Finished(Ok(d)) => {
            assert_eq!(d.address, 1);
            assert_eq!(d.speed, Speed::Low);
            assert_eq!(d.device_desc.id_vendor, 0xCAFE);
        }
        other => panic!("unexpected {:?}", other),
    }
    let (addr, mps_default, _, _) = enumerate(&mut e, Speed::High);
    assert_eq!((addr, mps_default), (2, 64));
    let (addr, _, _, done) = enumerate(&mut e, Speed::Full);
    assert_eq!(addr, 3);
    assert!(matches!(done, HostAction::Finished(Ok(_))));
    // the list holds at most two devices
    assert_eq!(e.devices().len(), 2);
    assert_eq!(e.devices()[1].address, 2);
}

#[test]
fn enumeration_errors() {
    let mut e = Enumerator::<4>::new();
    e.start();
    e.on_port_status(status(true));
    e.on_delay_done();
    assert!(matches!(e.on_reset(Err(HostError::Timeout)), HostAction::Finished(Err(HostError::Timeout))));

    e.start();
    e.on_port_status(status(true));
    e.on_delay_done();
    e.on_reset(Ok(Speed::Full));
    e.on_delay_done();
    assert!(matches!(
        e.on_pipe_opened(Err(HostError::NoChannelAvailable)),
        HostAction::Finished(Err(HostError::NoChannelAvailable))
    ));

    // a bad descriptor ends with DescriptorParseError; the address is used up
    let good = device_descriptor_bytes(64);
    let mut bad = good;
    bad[1] = 2;
    e.start();
    e.on_port_status(status(true));
    e.on_delay_done();
    e.on_reset(Ok(Speed::Full));
    e.on_delay_done();
    e.on_pipe_opened(Ok(()));
    match e.on_transfer(Ok(8), &good) {
        HostAction::Transfer(s) => assert_eq!(s.value, 1),
        other => panic!("unexpected {:?}", other),
    }
    assert!(matches!(e.on_transfer(Err(HostError::Stall), &good), HostAction::Finished(Err(HostError::Stall))));
    e.start();
    e.on_port_status(status(true));
    e.on_delay_done();
    e.on_reset(Ok(Speed::Full));
    e.on_delay_done();
    e.on_pipe_opened(Ok(()));
    match e.on_transfer(Ok(8), &good) {
        HostAction::Transfer(s) => assert_eq!(s.value, 2),
        other => panic!("unexpected {:?}", other),
    }
    e.on_transfer(Ok(0), &good);
    e.on_delay_done();
    e.on_pipe_opened(Ok(()));
    assert!(matches!(
        e.on_transfer(Ok(18), &bad),
        HostAction::Finished(Err(HostError::DescriptorParseError))
    ));
    assert_eq!(e.devices().len(), 0);
}

#[test]
fn enumeration_address_wraps_after_127() {
    let mut e = Enumerator::<1>::new();
    let buf = device_descriptor_bytes(8);
    let mut last = 0u8;
    for _ in 0..128 {
        e.start();
        e.on_port_status(status(true));
        e.on_delay_done();
        e.on_reset(Ok(Speed::Full));
        e.on_delay_done();
        e.on_pipe_opened(Ok(()));
        last = match e.on_transfer(Ok(8), &buf) {
            HostAction::Transfer(s) => s.value as u8,
            other => panic!("unexpected {:?}", other),
        };
        e.on_transfer(Err(HostError::Stall), &buf);
    }
    assert_eq!(last, 1);
}
