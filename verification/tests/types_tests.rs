use tinyusb::class::msc::{CommandBlockWrapper, CommandStatus, CommandStatusWrapper};
use tinyusb::descriptor::{
    ConfigurationDescriptor, DescriptorType, DeviceDescriptor, EndpointDescriptor,
    InterfaceAssociationDescriptor, InterfaceDescriptor,
};
use tinyusb::setup::{Recipient, RequestType, SetupPacket, StandardRequest};
use tinyusb::types::{Direction, EndpointAddress, IsoAttributes, Role, Speed, TransferType};

#[test]
fn test_setup_packet_parsing() {
    // Standard GET_DESCRIPTOR Device (80 06 00 01 00 00 12 00)
    let raw = [0x80, 0x06, 0x00, 0x01, 0x00, 0x00, 0x12, 0x00];
    let setup = SetupPacket::from_bytes(&raw);

    assert_eq!(setup.direction(), Direction::In);
    assert_eq!(setup.req_type(), RequestType::Standard);
    assert_eq!(setup.recipient(), Recipient::Device);
    assert_eq!(setup.standard_request(), Some(StandardRequest::GetDescriptor));
    assert_eq!(setup.value, 0x0100);
    assert_eq!(setup.length, 18);

    let mut out = [0u8; 8];
    setup.to_bytes(&mut out);
    assert_eq!(raw, out);
}

#[test]
fn test_device_descriptor_roundtrip() {
    let desc = DeviceDescriptor {
        bcd_usb: 0x0200,
        b_device_class: 0,
        b_device_sub_class: 0,
        b_device_protocol: 0,
        b_max_packet_size0: 64,
        id_vendor: 0x1234,
        id_product: 0x5678,
        bcd_device: 0x0100,
        i_manufacturer: 1,
        i_product: 2,
        i_serial_number: 3,
        b_num_configurations: 1,
    };

    let mut buf = [0u8; 18];
    desc.to_bytes(&mut buf);
    let parsed = DeviceDescriptor::from_bytes(&buf).expect("Failed to parse device descriptor");
    assert_eq!(desc, parsed);
}

#[test]
fn test_speed_matches_tinyusb() {
    assert_eq!(Speed::Full.to_u8(), 0);
    assert_eq!(Speed::Low.to_u8(), 1);
    assert_eq!(Speed::High.to_u8(), 2);
    assert_eq!(Speed::Auto.to_u8(), 0xAA);
    assert_eq!(Speed::Invalid.to_u8(), 0xFF);
    assert_eq!(Role::Invalid.to_u8(), 0);
    assert_eq!(Role::Device.to_u8(), 0x1);
    assert_eq!(Role::Host.to_u8(), 0x2);
}

#[test]
fn test_cbw_rejects_reserved_fields() {
    let mut raw = [0u8; 31];
    let valid = CommandBlockWrapper {
        tag: 1,
        data_transfer_length: 0,
        flags: 0,
        lun: 0,
        cb_length: 6,
        command: [0; 16],
    };
    valid.to_bytes(&mut raw);
    assert!(CommandBlockWrapper::from_bytes(&raw).is_some());

    raw[12] = 0x01; // reserved flag bits
    assert!(CommandBlockWrapper::from_bytes(&raw).is_none());
}

#[test]
fn test_cbw_csw_roundtrip() {
    let cbw = CommandBlockWrapper {
        tag: 0x12345678,
        data_transfer_length: 512,
        flags: 0x80, // In
        lun: 0,
        cb_length: 10,
        command: [0x28, 0, 0, 0, 0, 1, 0, 0, 1, 0, 0, 0, 0, 0, 0, 0], // READ(10)
    };

    let mut cbw_buf = [0u8; 31];
    cbw.to_bytes(&mut cbw_buf);
    let parsed_cbw = CommandBlockWrapper::from_bytes(&cbw_buf).expect("Failed to parse CBW");
    assert_eq!(cbw, parsed_cbw);
    assert!(parsed_cbw.is_direction_in());

    let csw = CommandStatusWrapper { tag: 0x12345678, data_residue: 0, status: CommandStatus::Passed };
    let mut csw_buf = [0u8; 13];
    csw.to_bytes(&mut csw_buf);
    let parsed_csw = CommandStatusWrapper::from_bytes(&csw_buf).expect("Failed to parse CSW");
    assert_eq!(csw, parsed_csw);
}

#[test]
fn setup_packet_little_endian_fields() {
    let p = SetupPacket { request_type: 0x21, request: 0x09, value: 0x0302, index: 0x0001, length: 0x0040 };
    let mut out = [0u8; 8];
    p.to_bytes(&mut out);
    assert_eq!(out, [0x21, 0x09, 0x02, 0x03, 0x01, 0x00, 0x40, 0x00]);
    assert_eq!(SetupPacket::from_bytes(&out), p);
    assert_eq!(p.req_type(), RequestType::Class);
    assert_eq!(p.recipient(), Recipient::Interface);
    assert_eq!(p.direction(), Direction::Out);
    assert_eq!(p.standard_request(), None);
}

#[test]
fn setup_packet_request_kinds() {
    let vendor_ep = SetupPacket::from_bytes(&[0xC2, 0x01, 0, 0, 0, 0, 0, 0]);
    assert_eq!(vendor_ep.req_type(), RequestType::Vendor);
    assert_eq!(vendor_ep.recipient(), Recipient::Endpoint);
    let reserved_other = SetupPacket::from_bytes(&[0x7F, 0x01, 0, 0, 0, 0, 0, 0]);
    assert_eq!(reserved_other.req_type(), RequestType::Reserved);
    assert_eq!(reserved_other.recipient(), Recipient::Other);
    // Unknown standard request code 2.
    let unknown = SetupPacket::from_bytes(&[0x00, 0x02, 0, 0, 0, 0, 0, 0]);
    assert_eq!(unknown.standard_request(), None);
    let set_addr = SetupPacket::from_bytes(&[0x00, 0x05, 7, 0, 0, 0, 0, 0]);
    assert_eq!(set_addr.standard_request(), Some(StandardRequest::SetAddress));
    assert_eq!(StandardRequest::SynchFrame.to_u8(), 12);
    assert_eq!(StandardRequest::try_from(12u8), Ok(StandardRequest::SynchFrame));
    assert_eq!(StandardRequest::try_from(4u8), Err(()));
}

#[test]
fn endpoint_address_parts() {
    let a = EndpointAddress::from_parts(0x13, Direction::In);
    assert_eq!(a.0, 0x83);
    assert_eq!(a.number(), 3);
    assert_eq!(a.direction(), Direction::In);
    assert!(a.is_in());
    assert!(!a.is_out());
    let b = EndpointAddress::from_parts(2, Direction::Out);
    assert_eq!(b.0, 0x02);
    assert_eq!(b.direction(), Direction::Out);
    assert!(b.is_out());
    assert_eq!(TransferType::Interrupt.to_u8(), 3);
    assert_eq!(Direction::In.to_u8(), 1);
}

#[test]
fn iso_attributes_flags() {
    let f = IsoAttributes::from_bits_truncate(0xFF);
    assert_eq!(f.bits(), 0x3C);
    assert!(f.contains(IsoAttributes::from_bits_truncate(IsoAttributes::USAGE_FEEDBACK)));
    assert!(IsoAttributes::from_bits(0x01).is_none());
    assert_eq!(IsoAttributes::from_bits(IsoAttributes::ADAPTIVE).map(|x| x.bits()), Some(0x08));
}

#[test]
fn device_descriptor_rejects_wrong_header() {
    let mut buf = [0u8; 18];
    buf[0] = 18;
    buf[1] = 0x02;
    assert!(DeviceDescriptor::from_bytes(&buf).is_none());
    buf[1] = 0x01;
    buf[0] = 17;
    assert!(DeviceDescriptor::from_bytes(&buf).is_none());
    buf[0] = 18;
    buf[2] = 0x10;
    buf[3] = 0x02;
    let d = DeviceDescriptor::from_bytes(&buf).unwrap();
    assert_eq!(d.bcd_usb, 0x0210);
    assert_eq!(DescriptorType::CsEndpoint.to_u8(), 0x25);
}

#[test]
fn configuration_interface_endpoint_iad_roundtrips() {
    let c = ConfigurationDescriptor {
        w_total_length: 0x0120,
        b_num_interfaces: 2,
        b_configuration_value: 1,
        i_configuration: 0,
        bm_attributes: 0x80,
        b_max_power: 50,
    };
    let mut cb = [0u8; 9];
    c.to_bytes(&mut cb);
    assert_eq!(cb, [9, 2, 0x20, 0x01, 2, 1, 0, 0x80, 50]);
    assert_eq!(ConfigurationDescriptor::from_bytes(&cb), Some(c));
    assert_eq!(ConfigurationDescriptor::from_bytes(&cb[..8]), None);

    let i = InterfaceDescriptor {
        b_interface_number: 1,
        b_alternate_setting: 0,
        b_num_endpoints: 2,
        b_interface_class: 8,
        b_interface_sub_class: 6,
        b_interface_protocol: 0x50,
        i_interface: 4,
    };
    let mut ib = [0u8; 9];
    i.to_bytes(&mut ib);
    assert_eq!(ib, [9, 4, 1, 0, 2, 8, 6, 0x50, 4]);
    let mut longer = ib.to_vec();
    longer.push(0xAA);
    assert_eq!(InterfaceDescriptor::from_bytes(&longer), Some(i));
    assert_eq!(InterfaceDescriptor::from_bytes(&cb), None);

    let e = EndpointDescriptor { b_endpoint_address: 0x81, bm_attributes: 2, w_max_packet_size: 512, b_interval: 0 };
    let mut eb = [0u8; 7];
    e.to_bytes(&mut eb);
    assert_eq!(eb, [7, 5, 0x81, 2, 0x00, 0x02, 0]);
    assert_eq!(EndpointDescriptor::from_bytes(&eb), Some(e));
    assert_eq!(EndpointDescriptor::from_bytes(&eb[..6]), None);

    let a = InterfaceAssociationDescriptor {
        b_first_interface: 0,
        b_interface_count: 2,
        b_function_class: 2,
        b_function_sub_class: 2,
        b_function_protocol: 1,
        i_function: 0,
    };
    let mut ab = [0u8; 8];
    a.to_bytes(&mut ab);
    assert_eq!(ab, [8, 0x0B, 0, 2, 2, 2, 1, 0]);
    assert_eq!(InterfaceAssociationDescriptor::from_bytes(&ab), Some(a));
    ab[1] = 0x0A;
    assert_eq!(InterfaceAssociationDescriptor::from_bytes(&ab), None);
}

#[test]
fn iso_attributes_set_operations() {
    assert!(IsoAttributes::empty().is_empty());
    assert_eq!(IsoAttributes::all().bits(), 0x3C);
    let sync = IsoAttributes::from_bits_truncate(IsoAttributes::SYNCHRONOUS);
    let fb = IsoAttributes::from_bits_truncate(IsoAttributes::USAGE_FEEDBACK);
    let both = sync.union(fb);
    assert_eq!(both.bits(), 0x1C);
    assert_eq!(both.intersection(fb).bits(), 0x10);
    assert_eq!(both.difference(fb).bits(), 0x0C);
    let mut f = IsoAttributes::empty();
    f.insert(fb);
    assert!(f.contains(fb));
    f.insert(sync);
    assert_eq!(f.bits(), 0x1C);
    f.remove(sync);
    assert_eq!(f.bits(), 0x10);
    assert!(!f.is_empty());
}
