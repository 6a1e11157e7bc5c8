use tinyusb::pd::{DataRole, FixedSupplyPdo, MessageHeader, PdControlMessage, PdDataMessage, PortType, PowerRole};

#[test]
fn test_message_header() {
    let hdr = MessageHeader::new(
        PdControlMessage::GoodCrc.to_u8(),
        DataRole::UpstreamFacingPort,
        PowerRole::Sink,
        3,
        0,
    );

    assert_eq!(hdr.msg_type(), PdControlMessage::GoodCrc.to_u8());
    assert_eq!(hdr.data_role(), DataRole::UpstreamFacingPort);
    assert_eq!(hdr.power_role(), PowerRole::Sink);
    assert_eq!(hdr.msg_id(), 3);
    assert_eq!(hdr.num_data_objects(), 0);
    assert!(hdr.is_control_message());
    assert!(!hdr.is_data_message());
}

#[test]
fn test_fixed_supply_pdo() {
    // 5V (100 * 50mV), 3A (300 * 10mA)
    let pdo = FixedSupplyPdo::new(100, 300);
    assert_eq!(pdo.voltage_mv(), 5000);
    assert_eq!(pdo.max_current_ma(), 3000);
}

#[test]
fn message_header_data_message_bits() {
    let hdr = MessageHeader::new(PdDataMessage::Request.to_u8(), DataRole::DownstreamFacingPort, PowerRole::Source, 7, 1);
    assert_eq!(hdr.0, 0x02 | (1 << 5) | (2 << 6) | (1 << 8) | (7 << 9) | (1 << 12));
    assert_eq!(hdr.msg_type(), 2);
    assert_eq!(hdr.data_role(), DataRole::DownstreamFacingPort);
    assert_eq!(hdr.power_role(), PowerRole::Source);
    assert_eq!(hdr.msg_id(), 7);
    assert_eq!(hdr.num_data_objects(), 1);
    assert!(hdr.is_data_message());
    assert!(!hdr.is_control_message());
    // fields wider than their bits are masked
    let masked = MessageHeader::new(0xFF, DataRole::UpstreamFacingPort, PowerRole::Sink, 0x0F, 0x0F);
    assert_eq!(masked.msg_type(), 0x1F);
    assert_eq!(masked.msg_id(), 7);
    assert_eq!(masked.num_data_objects(), 7);
    assert_eq!(PortType::Disconnected.to_u8(), 3);
    assert_eq!(PdControlMessage::NotSupported.to_u8(), 16);
}

#[test]
fn fixed_supply_pdo_masks() {
    let pdo = FixedSupplyPdo::new(0x7FF, 0x4FF);
    assert_eq!(pdo.voltage_mv(), 0x3FF * 50);
    assert_eq!(pdo.max_current_ma(), 0xFF * 10);
    assert_eq!(pdo.0 >> 30, 0);
    assert_eq!(FixedSupplyPdo::new(240, 500).0, 500 | (240 << 10));
}
