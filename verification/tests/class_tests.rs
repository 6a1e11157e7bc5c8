use tinyusb::class::cdc::{CdcRequest, CdcSubclass, LineCoding};
use tinyusb::class::dfu::{DfuFunctionalDescriptor, DfuRequest};
use tinyusb::class::hid::{HidProtocol, HidReportType, HidRequest, HidSubclass, KeyboardReport, MouseReport};
use tinyusb::class::msc::{
    CommandBlockWrapper, CommandStatus, CommandStatusWrapper, MscProtocol, MscSubclass, ScsiCommand,
    ScsiSenseKey, CBW_SIGNATURE, CSW_SIGNATURE,
};

#[test]
fn line_coding_bytes() {
    let lc = LineCoding::default();
    assert_eq!(lc, LineCoding { baud_rate: 115200, stop_bits: 0, parity: 0, data_bits: 8 });
    let mut b = [0u8; 7];
    lc.to_bytes(&mut b);
    assert_eq!(b, [0x00, 0xC2, 0x01, 0x00, 0, 0, 8]);
    assert_eq!(LineCoding::from_bytes(&b), lc);
    let other = LineCoding::from_bytes(&[0x80, 0x25, 0, 0, 2, 1, 7]);
    assert_eq!(other.baud_rate, 9600);
    assert_eq!((other.stop_bits, other.parity, other.data_bits), (2, 1, 7));
    assert_eq!(CdcRequest::try_from(0x22u8), Ok(CdcRequest::SetControlLineState));
    assert_eq!(CdcRequest::try_from(0x24u8), Err(()));
    assert_eq!(CdcSubclass::NetworkControlModel.to_u8(), 0x0D);
}

#[test]
fn dfu_descriptor_bytes() {
    let d = DfuFunctionalDescriptor {
        bm_attributes: 0x0B,
        w_detach_time_out: 0x00FF,
        w_transfer_size: 0x0400,
        bcd_dfu_version: 0x0110,
    };
    let mut b = [0u8; 9];
    d.to_bytes(&mut b);
    assert_eq!(b, [9, 0x21, 0x0B, 0xFF, 0x00, 0x00, 0x04, 0x10, 0x01]);
    assert_eq!(DfuFunctionalDescriptor::from_bytes(&b), Some(d));
    b[1] = 0x22;
    assert_eq!(DfuFunctionalDescriptor::from_bytes(&b), None);
    assert_eq!(DfuRequest::try_from(6u8), Ok(DfuRequest::Abort));
    assert_eq!(DfuRequest::try_from(7u8), Err(()));
    assert_eq!(DfuRequest::GetState.to_u8(), 5);
}

#[test]
fn hid_reports_bytes() {
    let k = KeyboardReport { modifier: 0x02, reserved: 0, keycodes: [4, 5, 6, 0, 0, 0] };
    let mut b = [0u8; 8];
    k.to_bytes(&mut b);
    assert_eq!(b, [0x02, 0, 4, 5, 6, 0, 0, 0]);
    assert_eq!(KeyboardReport::from_bytes(&b), k);

    let m = MouseReport { buttons: 1, x: -1, y: 127, wheel: -128 };
    let mut mb = [0u8; 4];
    m.to_bytes(&mut mb);
    assert_eq!(mb, [1, 0xFF, 0x7F, 0x80]);
    assert_eq!(MouseReport::from_bytes(&mb), m);
    assert_eq!(HidRequest::try_from(0x0Bu8), Ok(HidRequest::SetProtocol));
    assert_eq!(HidRequest::try_from(0x04u8), Err(()));
    assert_eq!(HidSubclass::BootInterface.to_u8(), 1);
    assert_eq!(HidProtocol::Mouse.to_u8(), 2);
    assert_eq!(HidReportType::Feature.to_u8(), 3);
}

fn cbw_bytes(flags: u8, lun: u8, cb_length: u8) -> [u8; 31] {
    let mut b = [0u8; 31];
    b[0..4].copy_from_slice(&CBW_SIGNATURE.to_le_bytes());
    b[4..8].copy_from_slice(&7u32.to_le_bytes());
    b[8..12].copy_from_slice(&0x200u32.to_le_bytes());
    b[12] = flags;
    b[13] = lun;
    b[14] = cb_length;
    b[15] = 0x12;
    b
}

#[test]
fn cbw_validation_cases() {
    let ok = CommandBlockWrapper::from_bytes(&cbw_bytes(0x80, 3, 6)).unwrap();
    assert_eq!((ok.tag, ok.data_transfer_length, ok.flags, ok.lun, ok.cb_length), (7, 0x200, 0x80, 3, 6));
    assert_eq!(ok.command[0], 0x12);
    assert!(ok.is_direction_in() && !ok.is_direction_out());
    // LUN high nibble set
    assert!(CommandBlockWrapper::from_bytes(&cbw_bytes(0, 0x10, 6)).is_none());
    // CDB length reserved bits
    assert!(CommandBlockWrapper::from_bytes(&cbw_bytes(0, 0, 0x26)).is_none());
    // CDB length 0 and 17
    assert!(CommandBlockWrapper::from_bytes(&cbw_bytes(0, 0, 0)).is_none());
    assert!(CommandBlockWrapper::from_bytes(&cbw_bytes(0, 0, 17)).is_none());
    assert!(CommandBlockWrapper::from_bytes(&cbw_bytes(0, 0, 16)).is_some());
    // wrong signature
    let mut bad = cbw_bytes(0, 0, 6);
    bad[0] = 0;
    assert!(CommandBlockWrapper::from_bytes(&bad).is_none());
    // to_bytes masks the LUN and CDB length
    let c = CommandBlockWrapper { tag: 1, data_transfer_length: 2, flags: 0, lun: 0xF3, cb_length: 0xE6, command: [9; 16] };
    let mut out = [0u8; 31];
    c.to_bytes(&mut out);
    assert_eq!(out[13], 0x03);
    assert_eq!(out[14], 0x06);
    assert_eq!(&out[15..31], &[9u8; 16]);
}

#[test]
fn csw_status_codes() {
    let csw = CommandStatusWrapper { tag: 0xAABBCCDD, data_residue: 0x100, status: CommandStatus::PhaseError };
    let mut b = [0u8; 13];
    csw.to_bytes(&mut b);
    assert_eq!(&b[0..4], &CSW_SIGNATURE.to_le_bytes());
    assert_eq!(&b[4..8], &[0xDD, 0xCC, 0xBB, 0xAA]);
    assert_eq!(&b[8..12], &[0x00, 0x01, 0x00, 0x00]);
    assert_eq!(b[12], 2);
    assert_eq!(CommandStatusWrapper::from_bytes(&b), Some(csw));
    b[12] = 3;
    assert_eq!(CommandStatusWrapper::from_bytes(&b), None);
    b[12] = 1;
    b[3] = 0;
    assert_eq!(CommandStatusWrapper::from_bytes(&b), None);
    assert_eq!(ScsiCommand::try_from(0x2Au8), Ok(ScsiCommand::Write10));
    assert_eq!(ScsiCommand::try_from(0x2Bu8), Err(()));
    assert_eq!(ScsiCommand::ReadCapacity10.to_u8(), 0x25);
    assert_eq!(ScsiSenseKey::AbortedCommand.to_u8(), 0x0B);
    assert_eq!(MscSubclass::Scsi.to_u8(), 6);
    assert_eq!(MscProtocol::BulkOnly.to_u8(), 0x50);
}
