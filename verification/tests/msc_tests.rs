use byteorder::{BigEndian, ByteOrder};
use tinyusb::class::msc::{CommandBlockWrapper, CommandStatus, CommandStatusWrapper, ScsiSenseKey};
use tinyusb::msc_class::{clamp_scsi_in_length, validate_rdwr10, BotAction, MscBot, MscControlHandler};
use tinyusb::scsi::{BlockDevice, RamDisk, ScsiHandler};
use tinyusb::setup::{Recipient, RequestType};

#[test]
fn test_ramdisk_scsi_operations() {
    let mut disk = RamDisk::<4>::new();
    let write_data = [0xAB; 512];
    assert!(disk.write_block(0, &write_data).is_ok());

    let mut read_data = [0u8; 512];
    assert!(disk.read_block(0, &mut read_data).is_ok());
    assert_eq!(write_data, read_data);

    // Out of bounds test
    assert!(disk.read_block(4, &mut read_data).is_err());
}

#[test]
fn test_scsi_inquiry_handling() {
    let mut scsi = ScsiHandler::new();
    let vendor = b"TinyUSBR";
    let product = b"Mass Storage Dev";
    let revision = b"1.00";
    let mut buf = [0u8; 36];

    let len = scsi.handle_inquiry(vendor, product, revision, &mut buf);
    assert_eq!(len, 36);
    assert_eq!(&buf[8..16], vendor);
    assert_eq!(&buf[16..32], product);
    assert_eq!(&buf[32..36], revision);
    assert_eq!(scsi.sense_key, ScsiSenseKey::NoSense);
}

#[test]
fn test_scsi_request_sense_format() {
    let mut scsi = ScsiHandler::new();
    scsi.set_sense(ScsiSenseKey::NotReady, 0x3A, 0x00);
    let mut buf = [0u8; 18];
    let len = scsi.handle_request_sense(&mut buf);
    assert_eq!(len, 18);
    assert_eq!(buf[0], 0xF0);
    assert_eq!(buf[2], ScsiSenseKey::NotReady.to_u8());
    assert_eq!(buf[12], 0x3A);
}

#[test]
fn test_scsi_read_capacity() {
    let mut scsi = ScsiHandler::new();
    let disk = RamDisk::<16>::new();
    let mut buf = [0u8; 8];

    let len = scsi.handle_read_capacity_10(&disk, &mut buf);
    assert_eq!(len, 8);
    let last_lba = BigEndian::read_u32(&buf[0..4]);
    let block_size = BigEndian::read_u32(&buf[4..8]);
    assert_eq!(last_lba, 15); // 16 blocks (0..=15)
    assert_eq!(block_size, 512);
}

#[test]
fn ramdisk_write_read_keeps_other_blocks() {
    let mut disk = RamDisk::<3>::new();
    assert_eq!(disk.block_count(), 3);
    assert_eq!(disk.block_size(), 512);
    assert!(disk.is_writable());
    let mut data = [0u8; 600];
    for (i, b) in data.iter_mut().enumerate() {
        *b = (i % 251) as u8;
    }
    assert!(disk.write_block(2, &data).is_ok());
    let mut out = [0xEEu8; 520];
    assert!(disk.read_block(2, &mut out).is_ok());
    assert_eq!(&out[..512], &data[..512]);
    assert_eq!(&out[512..], &[0xEEu8; 8]);
    assert!(disk.read_block(1, &mut out).is_ok());
    assert_eq!(&out[..512], &[0u8; 512]);
    // short buffers and LBAs past the end are refused
    assert!(disk.write_block(3, &data).is_err());
    assert!(disk.write_block(0, &data[..511]).is_err());
    let mut short = [7u8; 100];
    assert!(disk.read_block(0, &mut short).is_err());
    assert_eq!(short, [7u8; 100]);
}

#[test]
fn scsi_handler_short_buffers() {
    let mut scsi = ScsiHandler::new();
    let mut b5 = [0xFFu8; 5];
    assert_eq!(scsi.handle_inquiry(b"ABCDEFGH", b"0123456789abcdef", b"9.99", &mut b5), 5);
    assert_eq!(b5, [0, 0x80, 2, 2, 31]);
    let mut b20 = [0xFFu8; 20];
    assert_eq!(scsi.handle_inquiry(b"ABCDEFGH", b"0123456789abcdef", b"9.99", &mut b20), 20);
    assert_eq!(&b20[8..16], b"ABCDEFGH");
    assert_eq!(&b20[16..20], &[0, 0, 0, 0]);

    let disk = RamDisk::<2>::new();
    let mut b7 = [1u8; 7];
    assert_eq!(scsi.handle_read_capacity_10(&disk, &mut b7), 0);
    assert_eq!(b7, [1u8; 7]);
    assert_eq!((scsi.sense_key, scsi.asc, scsi.ascq), (ScsiSenseKey::IllegalRequest, 0x24, 0));

    let empty = RamDisk::<0>::new();
    let mut b8 = [1u8; 8];
    assert_eq!(scsi.handle_read_capacity_10(&empty, &mut b8), 0);
    assert_eq!((scsi.sense_key, scsi.asc), (ScsiSenseKey::NotReady, 0x3A));

    let mut b3 = [9u8; 3];
    assert_eq!(scsi.handle_mode_sense_6(true, &mut b3), 0);
    assert_eq!(b3, [9u8; 3]);
    assert_eq!(scsi.sense_key, ScsiSenseKey::NotReady);
    let mut b4 = [9u8; 6];
    assert_eq!(scsi.handle_mode_sense_6(false, &mut b4), 4);
    assert_eq!(b4, [3, 0, 0x80, 0, 9, 9]);
    assert_eq!(scsi.sense_key, ScsiSenseKey::NoSense);

    scsi.set_sense(ScsiSenseKey::MediumError, 0x11, 0x01);
    let mut s14 = [0xAAu8; 14];
    assert_eq!(scsi.handle_request_sense(&mut s14), 14);
    assert_eq!(s14, [0xF0, 0, 3, 0, 0, 0, 0, 10, 0, 0, 0, 0, 0x11, 0x01]);
    assert_eq!(scsi.sense_key, ScsiSenseKey::NoSense);

    let mut cap = [0u8; 10];
    assert_eq!(scsi.read_capacity_10(0x1000, 4096, &mut cap), 8);
    assert_eq!(&cap[..8], &[0, 0, 0x0F, 0xFF, 0, 0, 0x10, 0]);
}

fn cbw(tag: u32, dtl: u32, flags: u8, cmd: &[u8]) -> CommandBlockWrapper {
    let mut command = [0u8; 16];
    command[..cmd.len()].copy_from_slice(cmd);
    CommandBlockWrapper { tag, data_transfer_length: dtl, flags, lun: 0, cb_length: cmd.len() as u8, command }
}

fn raw(c: &CommandBlockWrapper) -> [u8; 31] {
    let mut b = [0u8; 31];
    c.to_bytes(&mut b);
    b
}

#[test]
fn clamp_and_validate() {
    let c = cbw(1, 100, 0x80, &[0x12, 0, 0, 0, 36, 0]);
    assert_eq!(clamp_scsi_in_length(&c, 36), 36);
    assert_eq!(clamp_scsi_in_length(&c, 200), 36);
    let c = cbw(1, 20, 0x80, &[0x12, 0, 0, 0, 0, 0]);
    assert_eq!(clamp_scsi_in_length(&c, 36), 20);

    let read = cbw(1, 1024, 0x80, &[0x28, 0, 0, 0, 0, 0, 0, 0, 2, 0]);
    assert_eq!(validate_rdwr10(&read, true), Ok((2, 512)));
    assert_eq!(validate_rdwr10(&read, false), Err(CommandStatus::PhaseError));
    let zero = cbw(1, 0, 0, &[0x28, 0, 0, 0, 0, 0, 0, 0, 0, 0]);
    assert_eq!(validate_rdwr10(&zero, true), Ok((0, 0)));
    let zero_len_blocks = cbw(1, 0, 0, &[0x28, 0, 0, 0, 0, 0, 0, 0, 1, 0]);
    assert_eq!(validate_rdwr10(&zero_len_blocks, true), Err(CommandStatus::PhaseError));
    let no_blocks = cbw(1, 512, 0x80, &[0x28, 0, 0, 0, 0, 0, 0, 0, 0, 0]);
    assert_eq!(validate_rdwr10(&no_blocks, true), Err(CommandStatus::Failed));
    let tiny = cbw(1, 1, 0x80, &[0x28, 0, 0, 0, 0, 0, 0, 0, 2, 0]);
    assert_eq!(validate_rdwr10(&tiny, true), Err(CommandStatus::PhaseError));
}

#[test]
fn control_handler_requests() {
    let mut h = MscControlHandler::new(2);
    let mut buf = [0u8; 4];
    assert_eq!(h.control_in(RequestType::Class, Recipient::Interface, 0xFE, &mut buf), Some(1));
    assert_eq!(buf[0], 1);
    let mut empty: [u8; 0] = [];
    assert_eq!(h.control_in(RequestType::Class, Recipient::Interface, 0xFE, &mut empty), None);
    assert_eq!(h.control_in(RequestType::Standard, Recipient::Interface, 0xFE, &mut buf), None);
    assert_eq!(h.control_in(RequestType::Class, Recipient::Device, 0xFE, &mut buf), None);
    assert!(h.control_out(RequestType::Class, Recipient::Interface, 0xFF));
    assert!(!h.control_out(RequestType::Class, Recipient::Interface, 0xFE));
    assert!(!h.control_out(RequestType::Vendor, Recipient::Interface, 0xFF));
}

const V: &[u8; 8] = b"TinyUSBR";
const P: &[u8; 16] = b"Mass Storage Dev";
const R: &[u8; 4] = b"1.00";

fn csw(tag: u32, residue: u32, status: CommandStatus) -> BotAction {
    BotAction::SendCsw(CommandStatusWrapper { tag, data_residue: residue, status })
}

#[test]
fn bot_inquiry_and_unit_ready() {
    let mut disk = RamDisk::<4>::new();
    let mut bot = MscBot::new();
    let a = bot.command(&mut disk, &raw(&cbw(5, 0, 0, &[0, 0, 0, 0, 0, 0])), V, P, R);
    assert_eq!(a, csw(5, 0, CommandStatus::Passed));

    let a = bot.command(&mut disk, &raw(&cbw(6, 96, 0x80, &[0x12, 0, 0, 0, 36, 0])), V, P, R);
    assert_eq!(a, BotAction::SendData(36));
    assert_eq!(&bot.data()[8..16], V);
    assert_eq!(&bot.data()[32..36], R);
    assert_eq!(bot.data_sent(&mut disk, true), csw(6, 60, CommandStatus::Passed));

    let a = bot.command(&mut disk, &raw(&cbw(7, 96, 0x80, &[0x12, 0, 0, 0, 36, 0])), V, P, R);
    assert_eq!(a, BotAction::SendData(36));
    assert_eq!(bot.data_sent(&mut disk, false), csw(7, 96, CommandStatus::Failed));

    // zero-length inquiry passes at once
    let a = bot.command(&mut disk, &raw(&cbw(8, 0, 0x80, &[0x12, 0, 0, 0, 36, 0])), V, P, R);
    assert_eq!(a, csw(8, 0, CommandStatus::Passed));

    // invalid CBW is ignored
    let mut bad = raw(&cbw(9, 0, 0, &[0, 0, 0, 0, 0, 0]));
    bad[12] = 0x01;
    assert_eq!(bot.command(&mut disk, &bad, V, P, R), BotAction::ReadCbw);
}

#[test]
fn bot_capacity_mode_sense_and_sense() {
    let mut disk = RamDisk::<4>::new();
    let mut bot = MscBot::new();
    let a = bot.command(&mut disk, &raw(&cbw(1, 8, 0x80, &[0x25, 0, 0, 0, 0, 0, 0, 0, 0, 0])), V, P, R);
    assert_eq!(a, BotAction::SendData(8));
    assert_eq!(&bot.data()[..8], &[0, 0, 0, 3, 0, 0, 2, 0]);
    assert_eq!(bot.data_sent(&mut disk, true), csw(1, 0, CommandStatus::Passed));

    let a = bot.command(&mut disk, &raw(&cbw(2, 192, 0x80, &[0x1A, 0, 0x3F, 0, 192, 0])), V, P, R);
    assert_eq!(a, BotAction::SendData(4));
    assert_eq!(&bot.data()[..4], &[3, 0, 0, 0]);
    assert_eq!(bot.data_sent(&mut disk, true), csw(2, 188, CommandStatus::Passed));

    // unsupported command: ILLEGAL REQUEST, then REQUEST SENSE reports it
    let a = bot.command(&mut disk, &raw(&cbw(3, 0, 0, &[0x1B, 0, 0, 0, 1, 0])), V, P, R);
    assert_eq!(a, csw(3, 0, CommandStatus::Failed));
    let a = bot.command(&mut disk, &raw(&cbw(4, 18, 0x80, &[0x03, 0, 0, 0, 18, 0])), V, P, R);
    assert_eq!(a, BotAction::SendData(18));
    assert_eq!(bot.data()[2], ScsiSenseKey::IllegalRequest.to_u8());
    assert_eq!(bot.data()[12], 0x20);
    assert_eq!(bot.data_sent(&mut disk, true), csw(4, 0, CommandStatus::Passed));

    // empty device: READ CAPACITY fails with NOT READY
    let mut empty = RamDisk::<0>::new();
    let a = bot.command(&mut empty, &raw(&cbw(5, 8, 0x80, &[0x25, 0, 0, 0, 0, 0, 0, 0, 0, 0])), V, P, R);
    assert_eq!(a, csw(5, 8, CommandStatus::Failed));
}

#[test]
fn bot_read_write_blocks() {
    let mut disk = RamDisk::<4>::new();
    let mut bot = MscBot::new();
    // WRITE(10) of 2 blocks at LBA 1
    let w = cbw(10, 1024, 0x00, &[0x2A, 0, 0, 0, 0, 1, 0, 0, 2, 0]);
    assert_eq!(bot.command(&mut disk, &raw(&w), V, P, R), BotAction::ReceiveData(512));
    assert!(bot.next_lba_fits());
    assert_eq!(bot.data_received(&mut disk, true, &[0x11u8; 512]), BotAction::ReceiveData(512));
    assert_eq!(bot.data_received(&mut disk, true, &[0x22u8; 512]), csw(10, 0, CommandStatus::Passed));

    let mut out = [0u8; 512];
    assert!(disk.read_block(1, &mut out).is_ok());
    assert_eq!(out, [0x11u8; 512]);
    assert!(disk.read_block(2, &mut out).is_ok());
    assert_eq!(out, [0x22u8; 512]);

    // READ(10) of the same 2 blocks
    let r = cbw(11, 1024, 0x80, &[0x28, 0, 0, 0, 0, 1, 0, 0, 2, 0]);
    assert_eq!(bot.command(&mut disk, &raw(&r), V, P, R), BotAction::SendData(512));
    assert_eq!(&bot.data()[..], &[0x11u8; 512][..]);
    assert_eq!(bot.data_sent(&mut disk, true), BotAction::SendData(512));
    assert_eq!(&bot.data()[..], &[0x22u8; 512][..]);
    assert_eq!(bot.data_sent(&mut disk, true), csw(11, 0, CommandStatus::Passed));

    // READ(10) past the end fails with MEDIUM ERROR after the first block
    let r = cbw(12, 1024, 0x80, &[0x28, 0, 0, 0, 0, 3, 0, 0, 2, 0]);
    assert_eq!(bot.command(&mut disk, &raw(&r), V, P, R), BotAction::SendData(512));
    assert_eq!(bot.data_sent(&mut disk, true), csw(12, 512, CommandStatus::Failed));
    let a = bot.command(&mut disk, &raw(&cbw(13, 18, 0x80, &[0x03, 0, 0, 0, 18, 0])), V, P, R);
    assert_eq!(a, BotAction::SendData(18));
    assert_eq!(bot.data()[2], ScsiSenseKey::MediumError.to_u8());
    assert_eq!(bot.data()[12], 0x11);
    assert_eq!(bot.data_sent(&mut disk, true), csw(13, 0, CommandStatus::Passed));

    // wrong direction and block size mismatch
    let r = cbw(14, 1024, 0x00, &[0x28, 0, 0, 0, 0, 0, 0, 0, 2, 0]);
    assert_eq!(bot.command(&mut disk, &raw(&r), V, P, R), csw(14, 1024, CommandStatus::PhaseError));
    let r = cbw(15, 2048, 0x80, &[0x28, 0, 0, 0, 0, 0, 0, 0, 2, 0]);
    assert_eq!(bot.command(&mut disk, &raw(&r), V, P, R), csw(15, 2048, CommandStatus::Failed));
    // zero-length READ(10) of zero blocks passes
    let r = cbw(16, 0, 0x80, &[0x28, 0, 0, 0, 0, 0, 0, 0, 0, 0]);
    assert_eq!(bot.command(&mut disk, &raw(&r), V, P, R), csw(16, 0, CommandStatus::Passed));
    // host fails to deliver a block of a WRITE(10)
    assert_eq!(bot.command(&mut disk, &raw(&w), V, P, R), BotAction::ReceiveData(512));
    assert_eq!(bot.data_received(&mut disk, false, &[0u8; 512]), csw(10, 1024, CommandStatus::Failed));
}

struct ReadOnly;

impl BlockDevice for ReadOnly {
    fn block_count(&self) -> u32 {
        8
    }

    fn is_writable(&self) -> bool {
        false
    }

    fn read_block(&mut self, _lba: u32, buf: &mut [u8]) -> Result<(), ()> {
        buf[..512].fill(0x5A);
        Ok(())
    }

    fn write_block(&mut self, _lba: u32, _buf: &[u8]) -> Result<(), ()> {
        Err(())
    }
}

#[test]
fn bot_read_only_device() {
    let mut dev = ReadOnly;
    let mut bot = MscBot::new();
    let w = cbw(20, 512, 0x00, &[0x2A, 0, 0, 0, 0, 0, 0, 0, 1, 0]);
    assert_eq!(bot.command(&mut dev, &raw(&w), V, P, R), csw(20, 512, CommandStatus::Failed));
    let m = cbw(21, 4, 0x80, &[0x1A, 0, 0, 0, 4, 0]);
    assert_eq!(bot.command(&mut dev, &raw(&m), V, P, R), BotAction::SendData(4));
    assert_eq!(bot.data()[2], 0x80);
    assert_eq!(bot.data_sent(&mut dev, true), csw(21, 0, CommandStatus::Passed));
    let a = bot.command(&mut dev, &raw(&cbw(22, 18, 0x80, &[0x03, 0, 0, 0, 18, 0])), V, P, R);
    assert_eq!(a, BotAction::SendData(18));
    assert_eq!(bot.data()[2], ScsiSenseKey::NoSense.to_u8());
    let _ = bot.data_sent(&mut dev, true);
    let r = cbw(23, 512, 0x80, &[0x28, 0, 0, 0, 0, 0, 0, 0, 1, 0]);
    assert_eq!(bot.command(&mut dev, &raw(&r), V, P, R), BotAction::SendData(512));
    assert_eq!(bot.data()[0], 0x5A);
    assert_eq!(bot.data_sent(&mut dev, false), csw(23, 512, CommandStatus::Failed));
}

#[test]
fn bot_no_data_stage_when_host_expects_none() {
    let mut disk = RamDisk::<4>::new();
    let mut bot = MscBot::new();
    // READ CAPACITY(10) and MODE SENSE(6) with transfer length 0 go straight to the CSW
    let a = bot.command(&mut disk, &raw(&cbw(1, 0, 0x80, &[0x25, 0, 0, 0, 0, 0, 0, 0, 0, 0])), V, P, R);
    assert_eq!(a, csw(1, 0, CommandStatus::Passed));
    let a = bot.command(&mut disk, &raw(&cbw(2, 0, 0x80, &[0x1A, 0, 0x3F, 0, 192, 0])), V, P, R);
    assert_eq!(a, csw(2, 0, CommandStatus::Passed));
    // REQUEST SENSE and zero-block READ(10)/WRITE(10) likewise
    let a = bot.command(&mut disk, &raw(&cbw(3, 0, 0x80, &[0x03, 0, 0, 0, 18, 0])), V, P, R);
    assert_eq!(a, csw(3, 0, CommandStatus::Passed));
    let a = bot.command(&mut disk, &raw(&cbw(4, 0, 0x80, &[0x28, 0, 0, 0, 0, 1, 0, 0, 0, 0])), V, P, R);
    assert_eq!(a, csw(4, 0, CommandStatus::Passed));
    let a = bot.command(&mut disk, &raw(&cbw(5, 0, 0x00, &[0x2A, 0, 0, 0, 0, 1, 0, 0, 0, 0])), V, P, R);
    assert_eq!(a, csw(5, 0, CommandStatus::Passed));
}
