//! USB Mass Storage Class: the class-specific control requests and the
//! bulk-only transport engine that serves SCSI commands from a block device.
use crate::class::msc::{
    spec_cbw_from_bytes, CbwFields, CommandBlockWrapper, CommandStatus,
    CommandStatusWrapper, ScsiCommand, ScsiSenseKey,
};
use crate::codec::{be16, be32, read_be_u16, read_be_u32};
use crate::scsi::{
    inquiry_response, mode_sense_response, read_capacity_response, sense_response, BlockDevice,
    ScsiHandler,
};
use crate::setup::{Recipient, RequestType};
use vstd::prelude::*;

verus! {

/// Class request GET_MAX_LUN.
pub const MSC_REQ_GET_MAX_LUN: u8 = 0xFE;

/// Class request Bulk-Only Mass Storage Reset.
pub const MSC_REQ_BOT_RESET: u8 = 0xFF;

/// The IN data length for a response of `response_len` bytes: capped by the
/// CBW transfer length and, where CDB byte 4 (the allocation length) is not
/// zero, by that byte.
pub open spec fn spec_clamp_in_length(cbw: CbwFields, response_len: int) -> int {
    let len = if response_len < cbw.data_transfer_length {
        response_len
    } else {
        cbw.data_transfer_length as int
    };
    let alloc = cbw.command[4];
    if alloc != 0 && alloc < len {
        alloc as int
    } else {
        len
    }
}

/// Cap IN data length by CBW transfer length and the SCSI CDB allocation length (byte 4).
pub fn clamp_scsi_in_length(cbw: &CommandBlockWrapper, response_len: usize) -> (r: usize)
    ensures
        r == spec_clamp_in_length(cbw@, response_len as int),
{
    let dtl = cbw.data_transfer_length as usize;
    let mut len = if response_len < dtl { response_len } else { dtl };
    let alloc = cbw.command[4];
    if alloc != 0 {
        let a = alloc as usize;
        if a < len {
            len = a;
        }
    }
    len
}

/// The IN data length never exceeds the response, the CBW transfer length, or
/// a non-zero allocation length, and is the largest length that does not.
pub proof fn lemma_clamp_bounds(cbw: CbwFields, response_len: int)
    requires
        response_len >= 0,
        cbw.command.len() == 16,
    ensures
        ({
            let t = spec_clamp_in_length(cbw, response_len);
            let a = cbw.command[4];
            &&& 0 <= t <= response_len
            &&& t <= cbw.data_transfer_length
            &&& a != 0 ==> t <= a
            &&& (t == response_len || t == cbw.data_transfer_length || (a != 0 && t == a))
        }),
{
}

/// The bulk-only transport check of a READ(10) or WRITE(10): the block count
/// (CDB bytes 7..9, big-endian) and block size (transfer length divided by the
/// block count), or the status to report.
pub open spec fn spec_validate_rdwr10(cbw: CbwFields, is_read: bool) -> Result<(u32, u32), CommandStatus> {
    let block_count = be16(cbw.command, 7) as u32;
    if cbw.data_transfer_length == 0 {
        if block_count > 0 {
            Err(CommandStatus::PhaseError)
        } else {
            Ok((0u32, 0u32))
        }
    } else if is_read && cbw.flags & 0x80 == 0 {
        Err(CommandStatus::PhaseError)
    } else if !is_read && cbw.flags & 0x80 != 0 {
        Err(CommandStatus::PhaseError)
    } else if block_count == 0 {
        Err(CommandStatus::Failed)
    } else if cbw.data_transfer_length / block_count == 0 {
        Err(CommandStatus::PhaseError)
    } else {
        Ok((block_count, (cbw.data_transfer_length / block_count) as u32))
    }
}

/// BOT validation for READ(10) / WRITE(10) (TinyUSB `rdwr10_validate_cmd`).
pub fn validate_rdwr10(cbw: &CommandBlockWrapper, is_read: bool) -> (r: Result<(u32, u32), CommandStatus>)
    ensures
        r == spec_validate_rdwr10(cbw@, is_read),
{
    let block_count = read_be_u16(&cbw.command, 7) as u32;
    if cbw.data_transfer_length == 0 {
        if block_count > 0 {
            return Err(CommandStatus::PhaseError);
        }
        return Ok((0, 0));
    }
    if is_read && cbw.is_direction_out() {
        return Err(CommandStatus::PhaseError);
    }
    if !is_read && cbw.is_direction_in() {
        return Err(CommandStatus::PhaseError);
    }
    if block_count == 0 {
        return Err(CommandStatus::Failed);
    }
    let block_size = cbw.data_transfer_length / block_count;
    if block_size == 0 {
        return Err(CommandStatus::PhaseError);
    }
    Ok((block_count, block_size))
}

/// A READ(10)/WRITE(10) that passes validation with blocks to move has a block
/// size of at least one byte and moves no more than the CBW transfer length.
pub proof fn lemma_validate_bounds(cbw: CbwFields, is_read: bool)
    ensures
        spec_validate_rdwr10(cbw, is_read) matches Ok((n, s)) ==> (n > 0 ==> s > 0 && n * s
            <= cbw.data_transfer_length),
{
    if let Ok((n, s)) = spec_validate_rdwr10(cbw, is_read) {
        if n > 0 {
            let d = cbw.data_transfer_length as int;
            assert((d / n as int) * (n as int) <= d) by (nonlinear_arith)
                requires
                    n > 0,
                    d >= 0,
            ;
            assert(n * s == (d / n as int) * (n as int)) by (nonlinear_arith)
                requires
                    s == d / n as int,
            ;
        }
    }
}

/// Control request handler for MSC (GET_MAX_LUN and BOT_RESET).
pub struct MscControlHandler {
    max_lun: u8,
}

impl MscControlHandler {
    /// The highest LUN number this handler reports.
    pub closed spec fn spec_max_lun(&self) -> u8 {
        self.max_lun
    }

    /// `lun_count` is the number of LUNs (1-16), as TinyUSB `tud_msc_get_maxlun_cb()`;
    /// GET_MAX_LUN answers `lun_count - 1` as the BOT specification asks.
    pub fn new(lun_count: u8) -> (r: Self)
        requires
            lun_count > 0,
        ensures
            r.spec_max_lun() == lun_count - 1,
    {
        MscControlHandler { max_lun: lun_count - 1 }
    }

    /// An IN control request: a class request GET_MAX_LUN to an interface, with
    /// room in `buf`, is answered with the highest LUN in `buf[0]` and
    /// `Some(1)`, the length of the answer; every other request gets `None` and
    /// leaves `buf` as it was.
    pub fn control_in(&mut self, request_type: RequestType, recipient: Recipient, request: u8, buf: &mut [u8]) -> (r: Option<usize>)
        ensures
            *final(self) == *old(self),
            (request_type == RequestType::Class && recipient == Recipient::Interface
                && request == MSC_REQ_GET_MAX_LUN && old(buf)@.len() > 0) ==> r == Some(1usize)
                && final(buf)@ == old(buf)@.update(0, old(self).spec_max_lun()),
            !(request_type == RequestType::Class && recipient == Recipient::Interface
                && request == MSC_REQ_GET_MAX_LUN && old(buf)@.len() > 0) ==> r is None
                && final(buf)@ == old(buf)@,
    {
        if request_type == RequestType::Class && recipient == Recipient::Interface && request
            == MSC_REQ_GET_MAX_LUN {
            if buf.len() > 0 {
                buf[0] = self.max_lun;
                return Some(1);
            }
        }
        None
    }

    /// An OUT control request: a class request BOT_RESET to an interface is
    /// accepted (`true`); every other request is not handled here.
    pub fn control_out(&mut self, request_type: RequestType, recipient: Recipient, request: u8) -> (r: bool)
        ensures
            *final(self) == *old(self),
            r == (request_type == RequestType::Class && recipient == Recipient::Interface
                && request == MSC_REQ_BOT_RESET),
    {
        request_type == RequestType::Class && recipient == Recipient::Interface && request
            == MSC_REQ_BOT_RESET
    }
}


/// Where the bulk-only transport engine stands in serving a command.
#[derive(Copy, Clone, PartialEq, Eq, Structural, Debug)]
pub enum BotPhase {
    /// Waiting for a CBW.
    Idle,
    /// READ CAPACITY(10): waiting for the device's block count and block size.
    AwaitCapacity,
    /// MODE SENSE(6): waiting for whether the device accepts writes.
    AwaitModeWritable,
    /// WRITE(10): waiting for whether the device accepts writes.
    AwaitWriteWritable,
    /// READ(10): waiting for the device's block size.
    AwaitReadBlockSize,
    /// WRITE(10): waiting for the device's block size.
    AwaitWriteBlockSize,
    /// READ(10): waiting for the device to read the current block.
    AwaitBlockRead,
    /// WRITE(10): waiting for the device to write the current block.
    AwaitBlockWritten,
    /// A response is being sent to the host.
    Responding,
    /// READ(10): the current block is being sent to the host.
    ReadingBlocks,
    /// WRITE(10): the current block is being received from the host.
    WritingBlocks,
}

/// What the engine asks of the bulk endpoints.
#[derive(Copy, Clone, PartialEq, Eq, Structural, Debug)]
pub enum BotAction {
    /// Read the next 31-byte CBW from the bulk OUT endpoint.
    ReadCbw,
    /// Write the first `n` bytes of `data()` to the bulk IN endpoint, then report
    /// the outcome with `data_sent`.
    SendData(usize),
    /// Read `n` bytes from the bulk OUT endpoint, then report them with `data_received`.
    ReceiveData(usize),
    /// Write this CSW to the bulk IN endpoint, then read the next CBW.
    SendCsw(CommandStatusWrapper),
}

/// What the engine needs next: an endpoint action, or an answer from the block device.
#[derive(Copy, Clone, PartialEq, Eq, Structural, Debug)]
pub enum BotStep {
    Host(BotAction),
    /// The device's block count and block size (`on_capacity`).
    QueryCapacity,
    /// Whether the device accepts writes (`on_writable`).
    QueryWritable,
    /// The device's block size (`on_block_size`).
    QueryBlockSize,
    /// Read this block into the data buffer (`on_block_read`).
    ReadBlock(u32),
    /// Write the first block-size bytes of the data buffer to this block (`on_block_written`).
    WriteBlock(u32),
}

/// The state of the bulk-only transport engine.
#[verifier::ext_equal]
pub struct BotModel {
    pub phase: BotPhase,
    /// The CBW of the command being served (the last one accepted).
    pub cbw: CbwFields,
    pub sense_key: ScsiSenseKey,
    pub asc: u8,
    pub ascq: u8,
    /// First LBA of a READ(10)/WRITE(10).
    pub lba: u32,
    /// Blocks to move in a READ(10)/WRITE(10).
    pub blocks: u32,
    /// Bytes per block in a READ(10)/WRITE(10).
    pub block_size: u32,
    /// Index of the block being moved.
    pub cur: u32,
    /// Bytes moved so far.
    pub xferred: u32,
    /// Length of the response being sent.
    pub pending: u32,
    /// The 512-byte data buffer.
    pub data: Seq<u8>,
}

/// The engine's size of the sector buffer.
pub const SECTOR_BUFFER_LEN: u32 = 512;

/// The invariant of the engine's state: the buffer holds 512 bytes and a
/// READ(10)/WRITE(10) in progress moves whole blocks, no more than the CBW
/// transfer length in all.
pub open spec fn bot_wf(m: BotModel) -> bool {
    &&& m.data.len() == 512
    &&& (m.phase == BotPhase::AwaitReadBlockSize || m.phase == BotPhase::AwaitWriteBlockSize)
        ==> 0 < m.blocks && 0 < m.block_size && m.blocks * m.block_size
        <= m.cbw.data_transfer_length
    &&& (m.phase == BotPhase::AwaitBlockRead || m.phase == BotPhase::ReadingBlocks || m.phase
        == BotPhase::AwaitBlockWritten || m.phase == BotPhase::WritingBlocks) ==> {
        &&& 0 < m.block_size <= 512
        &&& m.cur < m.blocks
        &&& m.xferred == m.cur * m.block_size
        &&& m.blocks * m.block_size <= m.cbw.data_transfer_length
    }
    &&& m.phase == BotPhase::Responding ==> 0 < m.pending <= m.cbw.data_transfer_length
}

/// The state after a command ends, and the CSW that reports it.
pub open spec fn csw_step(m: BotModel, status: CommandStatus, residue: u32) -> (BotModel, BotStep) {
    (
        BotModel { phase: BotPhase::Idle, ..m },
        BotStep::Host(
            BotAction::SendCsw(
                CommandStatusWrapper { tag: m.cbw.tag, data_residue: residue, status },
            ),
        ),
    )
}

/// `m` with the given sense state.
pub open spec fn with_sense(m: BotModel, key: ScsiSenseKey, asc: u8, ascq: u8) -> BotModel {
    BotModel { sense_key: key, asc, ascq, ..m }
}

/// Sending a response of `t` bytes; an empty response is not sent (there is
/// no data stage when the host expects none) and the command passes at once.
pub open spec fn respond_step(m: BotModel, t: int) -> (BotModel, BotStep) {
    if t == 0 {
        csw_step(m, CommandStatus::Passed, m.cbw.data_transfer_length)
    } else {
        (
            BotModel { phase: BotPhase::Responding, pending: t as u32, ..m },
            BotStep::Host(BotAction::SendData(t as usize)),
        )
    }
}

/// Serving a command whose CBW `c` was accepted.
pub open spec fn spec_start(m0: BotModel, c: CbwFields, vendor: Seq<u8>, product: Seq<u8>, revision: Seq<u8>) -> (BotModel, BotStep) {
    let m = BotModel { cbw: c, ..m0 };
    let dtl = c.data_transfer_length;
    match ScsiCommand::spec_from_u8(c.command[0]) {
        Some(ScsiCommand::TestUnitReady) => csw_step(m, CommandStatus::Passed, 0),
        Some(ScsiCommand::Inquiry) => respond_step(
            with_sense(
                BotModel { data: inquiry_response(vendor, product, revision, 36) + m.data.skip(36), ..m },
                ScsiSenseKey::NoSense,
                0,
                0,
            ),
            spec_clamp_in_length(c, 36),
        ),
        Some(ScsiCommand::ReadCapacity10) => (
            BotModel { phase: BotPhase::AwaitCapacity, ..m },
            BotStep::QueryCapacity,
        ),
        Some(ScsiCommand::RequestSense) => respond_step(
            with_sense(
                BotModel {
                    data: sense_response(m.sense_key, m.asc, m.ascq, 18) + m.data.skip(18),
                    ..m
                },
                ScsiSenseKey::NoSense,
                0,
                0,
            ),
            spec_clamp_in_length(c, 18),
        ),
        Some(ScsiCommand::ModeSense6) => (
            BotModel { phase: BotPhase::AwaitModeWritable, ..m },
            BotStep::QueryWritable,
        ),
        Some(ScsiCommand::Read10) => match spec_validate_rdwr10(c, true) {
            Err(st) => csw_step(m, st, dtl),
            Ok((n, s)) => if n == 0 {
                csw_step(m, CommandStatus::Passed, 0)
            } else {
                (
                    BotModel { phase: BotPhase::AwaitReadBlockSize, blocks: n, block_size: s, ..m },
                    BotStep::QueryBlockSize,
                )
            },
        },
        Some(ScsiCommand::Write10) => (
            BotModel { phase: BotPhase::AwaitWriteWritable, ..m },
            BotStep::QueryWritable,
        ),
        _ => csw_step(with_sense(m, ScsiSenseKey::IllegalRequest, 0x20, 0), CommandStatus::Failed, dtl),
    }
}

/// A CBW arrives: bytes that do not form a CBW are ignored (the engine waits
/// for the next one); otherwise the command is served.
pub open spec fn spec_on_cbw(m: BotModel, s: Seq<u8>, vendor: Seq<u8>, product: Seq<u8>, revision: Seq<u8>) -> (BotModel, BotStep) {
    match spec_cbw_from_bytes(s) {
        None => (m, BotStep::Host(BotAction::ReadCbw)),
        Some(c) => spec_start(m, c, vendor, product, revision),
    }
}

/// READ CAPACITY(10) with the device's answer.
pub open spec fn spec_on_capacity(m: BotModel, total_blocks: u32, block_size: u32) -> (BotModel, BotStep) {
    if total_blocks == 0 || block_size == 0 {
        csw_step(
            with_sense(m, ScsiSenseKey::NotReady, 0x3A, 0),
            CommandStatus::Failed,
            m.cbw.data_transfer_length,
        )
    } else {
        respond_step(
            with_sense(
                BotModel {
                    data: read_capacity_response(total_blocks, block_size) + m.data.skip(8),
                    ..m
                },
                ScsiSenseKey::NoSense,
                0,
                0,
            ),
            spec_clamp_in_length(m.cbw, 8),
        )
    }
}

/// MODE SENSE(6) or WRITE(10) with the device's answer to whether it accepts writes.
pub open spec fn spec_on_writable(m: BotModel, writable: bool) -> (BotModel, BotStep) {
    let dtl = m.cbw.data_transfer_length;
    if m.phase == BotPhase::AwaitModeWritable {
        respond_step(
            with_sense(
                BotModel { data: mode_sense_response(writable) + m.data.skip(4), ..m },
                ScsiSenseKey::NoSense,
                0,
                0,
            ),
            spec_clamp_in_length(m.cbw, 4),
        )
    } else if !writable {
        csw_step(with_sense(m, ScsiSenseKey::DataProtect, 0x27, 0), CommandStatus::Failed, dtl)
    } else {
        match spec_validate_rdwr10(m.cbw, false) {
            Err(st) => csw_step(m, st, dtl),
            Ok((n, s)) => if n == 0 {
                csw_step(m, CommandStatus::Passed, 0)
            } else {
                (
                    BotModel { phase: BotPhase::AwaitWriteBlockSize, blocks: n, block_size: s, ..m },
                    BotStep::QueryBlockSize,
                )
            },
        }
    }
}

/// READ(10)/WRITE(10) with the device's block size: a mismatch with the
/// command's block size, or a block larger than the buffer, fails the command
/// (ILLEGAL REQUEST, 0x20); otherwise the transfer starts at the CDB's LBA.
pub open spec fn spec_on_block_size(m: BotModel, device_block_size: u32) -> (BotModel, BotStep) {
    if m.block_size != device_block_size || m.block_size > SECTOR_BUFFER_LEN {
        csw_step(
            with_sense(m, ScsiSenseKey::IllegalRequest, 0x20, 0),
            CommandStatus::Failed,
            m.cbw.data_transfer_length,
        )
    } else {
        let lba = be32(m.cbw.command, 2);
        let m2 = BotModel { lba, cur: 0, xferred: 0, ..m };
        if m.phase == BotPhase::AwaitReadBlockSize {
            (BotModel { phase: BotPhase::AwaitBlockRead, ..m2 }, BotStep::ReadBlock(lba))
        } else {
            (
                BotModel { phase: BotPhase::WritingBlocks, ..m2 },
                BotStep::Host(BotAction::ReceiveData(m.block_size as usize)),
            )
        }
    }
}

/// READ(10) after the device read the current block: it is sent, or the
/// command fails with MEDIUM ERROR (0x11).
pub open spec fn spec_on_block_read(m: BotModel, ok: bool) -> (BotModel, BotStep) {
    if ok {
        (
            BotModel { phase: BotPhase::ReadingBlocks, ..m },
            BotStep::Host(BotAction::SendData(m.block_size as usize)),
        )
    } else {
        csw_step(
            with_sense(m, ScsiSenseKey::MediumError, 0x11, 0),
            CommandStatus::Failed,
            (m.cbw.data_transfer_length - m.xferred) as u32,
        )
    }
}

/// Whether the LBA of the next block the engine may ask for fits in 32 bits.
pub open spec fn lba_fits(m: BotModel) -> bool {
    if m.phase == BotPhase::ReadingBlocks {
        m.cur + 1 < m.blocks ==> m.lba + m.cur + 1 <= u32::MAX
    } else if m.phase == BotPhase::WritingBlocks {
        m.lba + m.cur <= u32::MAX
    } else {
        true
    }
}

/// The host took (or failed to take) the data sent: a response ends the
/// command (PASSED with the unsent bytes as residue, or FAILED); a READ(10)
/// block counts and the next one is read, or the command ends.
pub open spec fn spec_on_data_sent(m: BotModel, ok: bool) -> (BotModel, BotStep) {
    let dtl = m.cbw.data_transfer_length;
    if m.phase == BotPhase::Responding {
        if ok {
            csw_step(m, CommandStatus::Passed, (dtl - m.pending) as u32)
        } else {
            csw_step(m, CommandStatus::Failed, dtl)
        }
    } else if !ok {
        csw_step(
            with_sense(m, ScsiSenseKey::MediumError, 0x11, 0),
            CommandStatus::Failed,
            (dtl - m.xferred) as u32,
        )
    } else {
        let x = (m.xferred + m.block_size) as u32;
        let c = (m.cur + 1) as u32;
        if c < m.blocks {
            (
                BotModel { phase: BotPhase::AwaitBlockRead, xferred: x, cur: c, ..m },
                BotStep::ReadBlock((m.lba + c) as u32),
            )
        } else {
            csw_step(BotModel { xferred: x, cur: c, ..m }, CommandStatus::Passed, (dtl - x) as u32)
        }
    }
}

/// WRITE(10) after a block came from the host (`d`): it goes to the device,
/// or the command fails with MEDIUM ERROR (0x03).
pub open spec fn spec_on_data_received(m: BotModel, ok: bool, d: Seq<u8>) -> (BotModel, BotStep) {
    if ok {
        (
            BotModel { phase: BotPhase::AwaitBlockWritten, data: d + m.data.skip(d.len() as int), ..m },
            BotStep::WriteBlock((m.lba + m.cur) as u32),
        )
    } else {
        csw_step(
            with_sense(m, ScsiSenseKey::MediumError, 0x03, 0),
            CommandStatus::Failed,
            (m.cbw.data_transfer_length - m.xferred) as u32,
        )
    }
}

/// WRITE(10) after the device wrote the current block: it counts and the next
/// one is received, or the command ends; a failed write fails the command
/// with MEDIUM ERROR (0x03).
pub open spec fn spec_on_block_written(m: BotModel, ok: bool) -> (BotModel, BotStep) {
    let dtl = m.cbw.data_transfer_length;
    if !ok {
        csw_step(
            with_sense(m, ScsiSenseKey::MediumError, 0x03, 0),
            CommandStatus::Failed,
            (dtl - m.xferred) as u32,
        )
    } else {
        let x = (m.xferred + m.block_size) as u32;
        let c = (m.cur + 1) as u32;
        if c < m.blocks {
            (
                BotModel { phase: BotPhase::WritingBlocks, xferred: x, cur: c, ..m },
                BotStep::Host(BotAction::ReceiveData(m.block_size as usize)),
            )
        } else {
            csw_step(BotModel { xferred: x, cur: c, ..m }, CommandStatus::Passed, (dtl - x) as u32)
        }
    }
}

/// What the host is asked for agrees with the state: a CSW answers the
/// command's tag with a residue within its transfer length and leaves the
/// engine idle; data moves in the response or block that is in progress.
pub open spec fn action_agrees(m: BotModel, a: BotAction) -> bool {
    match a {
        BotAction::ReadCbw => m.phase == BotPhase::Idle,
        BotAction::SendCsw(c) => m.phase == BotPhase::Idle && c.tag == m.cbw.tag && c.data_residue
            <= m.cbw.data_transfer_length,
        BotAction::SendData(n) => (m.phase == BotPhase::Responding && n == m.pending) || (m.phase
            == BotPhase::ReadingBlocks && n == m.block_size),
        BotAction::ReceiveData(n) => m.phase == BotPhase::WritingBlocks && n == m.block_size,
    }
}

/// A step agrees with the state: each device question is asked in the phase
/// that waits for its answer, and blocks are asked for at `lba + cur`.
pub open spec fn step_agrees(m: BotModel, s: BotStep) -> bool {
    match s {
        BotStep::Host(a) => action_agrees(m, a),
        BotStep::QueryCapacity => m.phase == BotPhase::AwaitCapacity,
        BotStep::QueryWritable => m.phase == BotPhase::AwaitModeWritable || m.phase
            == BotPhase::AwaitWriteWritable,
        BotStep::QueryBlockSize => m.phase == BotPhase::AwaitReadBlockSize || m.phase
            == BotPhase::AwaitWriteBlockSize,
        BotStep::ReadBlock(l) => m.phase == BotPhase::AwaitBlockRead && l == m.lba + m.cur,
        BotStep::WriteBlock(l) => m.phase == BotPhase::AwaitBlockWritten && l == m.lba + m.cur,
    }
}

/// How many device answers a step can still ask for before a host action.
pub open spec fn step_rank(m: BotModel, s: BotStep) -> int {
    match s {
        BotStep::Host(_) => 0,
        BotStep::QueryWritable => if m.phase == BotPhase::AwaitWriteWritable {
            3
        } else {
            1
        },
        BotStep::QueryBlockSize => 2,
        _ => 1,
    }
}

/// The bulk-only transport engine: it parses CBWs, answers SCSI commands from
/// a block device and produces the CSWs.
pub struct MscBot {
    scsi: ScsiHandler,
    phase: BotPhase,
    cbw: CommandBlockWrapper,
    lba: u32,
    blocks: u32,
    block_size: u32,
    cur: u32,
    xferred: u32,
    pending: u32,
    data: [u8; 512],
}

impl View for MscBot {
    type V = BotModel;

    closed spec fn view(&self) -> BotModel {
        BotModel {
            phase: self.phase,
            cbw: self.cbw@,
            sense_key: self.scsi.sense_key,
            asc: self.scsi.asc,
            ascq: self.scsi.ascq,
            lba: self.lba,
            blocks: self.blocks,
            block_size: self.block_size,
            cur: self.cur,
            xferred: self.xferred,
            pending: self.pending,
            data: self.data@,
        }
    }
}


/// The state after a step is the one `n` gives, the step the one `n` gives.
pub open spec fn next_is(m: BotModel, s: BotStep, n: (BotModel, BotStep)) -> bool {
    m =~= n.0 && s == n.1
}

/// A block device's answer to one question of the engine.
pub enum DeviceAnswer {
    /// What `block_count()` and `block_size()` returned.
    Capacity(u32, u32),
    /// What `is_writable()` returned.
    Writable(bool),
    /// What `block_size()` returned.
    BlockSize(u32),
    /// Whether `read_block` succeeded, and the data buffer after the call.
    BlockRead(bool, Seq<u8>),
    /// Whether `write_block` succeeded.
    BlockWritten(bool),
}

/// `a` is what a call of the device method that step `s` asks for returned,
/// made with the arguments that `s` and the state `m` give: the block of a
/// read or write is the step's LBA, a read fills the data buffer, a write is
/// handed the first block-size bytes of it.
pub open spec fn device_answered<B: BlockDevice>(m: BotModel, s: BotStep, a: DeviceAnswer) -> bool {
    match s {
        BotStep::Host(_) => false,
        BotStep::QueryCapacity => exists|d: &B, n: u32, bs: u32|
            #[trigger] call_ensures(B::block_count, (d,), n) && #[trigger] call_ensures(
                B::block_size,
                (d,),
                bs,
            ) && a == DeviceAnswer::Capacity(n, bs),
        BotStep::QueryWritable => exists|d: &B, w: bool|
            #[trigger] call_ensures(B::is_writable, (d,), w) && a == DeviceAnswer::Writable(w),
        BotStep::QueryBlockSize => exists|d: &B, bs: u32|
            #[trigger] call_ensures(B::block_size, (d,), bs) && a == DeviceAnswer::BlockSize(bs),
        BotStep::ReadBlock(l) => a matches DeviceAnswer::BlockRead(ok, after) && after.len() == 512
            && exists|d: &mut B, b: &mut [u8], res: Result<(), ()>|
            #[trigger] call_ensures(B::read_block, (d, l, b), res) && b@ == m.data && ok == (res is Ok),
        BotStep::WriteBlock(l) => a matches DeviceAnswer::BlockWritten(ok) && exists|
            d: &mut B,
            b: &[u8],
            res: Result<(), ()>,
        |
            #[trigger] call_ensures(B::write_block, (d, l, b), res) && b@ == m.data.take(
                m.block_size as int,
            ) && ok == (res is Ok),
    }
}

/// The state and step after the device's answer `a`.
pub open spec fn spec_answer(m: BotModel, a: DeviceAnswer) -> (BotModel, BotStep) {
    match a {
        DeviceAnswer::Capacity(n, bs) => spec_on_capacity(m, n, bs),
        DeviceAnswer::Writable(w) => spec_on_writable(m, w),
        DeviceAnswer::BlockSize(bs) => spec_on_block_size(m, bs),
        DeviceAnswer::BlockRead(ok, after) => spec_on_block_read(BotModel { data: after, ..m }, ok),
        DeviceAnswer::BlockWritten(ok) => spec_on_block_written(m, ok),
    }
}

/// From state `m` and step `s`, the device gave the answers in order, each to
/// the call its step asked for, and the engine reached `m_end` and asked the
/// host for `r`.
pub open spec fn drive_trace<B: BlockDevice>(
    m: BotModel,
    s: BotStep,
    answers: Seq<DeviceAnswer>,
    m_end: BotModel,
    r: BotAction,
) -> bool
    decreases answers.len(),
{
    match s {
        BotStep::Host(a) => answers.len() == 0 && m_end =~= m && r == a,
        _ => answers.len() > 0 && device_answered::<B>(m, s, answers[0]) && drive_trace::<B>(
            spec_answer(m, answers[0]).0,
            spec_answer(m, answers[0]).1,
            answers.drop_first(),
            m_end,
            r,
        ),
    }
}

/// The step the engine is at after the first `i` answers of a trace that
/// starts from state `m` and step `s`.
pub open spec fn trace_step(m: BotModel, s: BotStep, answers: Seq<DeviceAnswer>, i: int) -> BotStep
    decreases answers.len(),
{
    if i <= 0 || answers.len() == 0 {
        s
    } else {
        trace_step(
            spec_answer(m, answers[0]).0,
            spec_answer(m, answers[0]).1,
            answers.drop_first(),
            i - 1,
        )
    }
}

/// Moving one more block keeps the bytes moved within the transfer length.
proof fn lemma_block_bound(cur: u32, blocks: u32, bs: u32, dtl: u32)
    requires
        cur < blocks,
        blocks * bs <= dtl,
    ensures
        cur * bs + bs == (cur + 1) * bs,
        (cur + 1) * bs <= dtl,
        cur * bs <= dtl,
{
    assert(cur * bs + bs == (cur + 1) * bs) by (nonlinear_arith);
    assert((cur + 1) * bs <= blocks * bs) by (nonlinear_arith)
        requires
            cur < blocks,
    ;
    assert(cur * bs <= (cur + 1) * bs) by (nonlinear_arith);
}

impl MscBot {
    /// An idle engine with no sense data pending.
    pub fn new() -> (r: Self)
        ensures
            bot_wf(r@),
            r@.phase == BotPhase::Idle,
            r@.sense_key == ScsiSenseKey::NoSense && r@.asc == 0 && r@.ascq == 0,
            r@.cbw == (CbwFields {
                tag: 0,
                data_transfer_length: 0,
                flags: 0,
                lun: 0,
                cb_length: 0,
                command: Seq::new(16, |i: int| 0u8),
            }),
            r@.lba == 0 && r@.blocks == 0 && r@.block_size == 0,
            r@.cur == 0 && r@.xferred == 0 && r@.pending == 0,
            r@.data == Seq::new(512, |i: int| 0u8),
    {
        let r = MscBot {
            scsi: ScsiHandler::new(),
            phase: BotPhase::Idle,
            cbw: CommandBlockWrapper {
                tag: 0,
                data_transfer_length: 0,
                flags: 0,
                lun: 0,
                cb_length: 0,
                command: [0u8; 16],
            },
            lba: 0,
            blocks: 0,
            block_size: 0,
            cur: 0,
            xferred: 0,
            pending: 0,
            data: [0u8; 512],
        };
        assert(r.cbw.command@ =~= Seq::new(16, |i: int| 0u8));
        assert(r.data@ =~= Seq::new(512, |i: int| 0u8));
        r
    }

    /// The data buffer whose prefix `SendData` asks to send.
    pub fn data(&self) -> (r: &[u8; 512])
        ensures
            r@ == self@.data,
    {
        &self.data
    }

    /// Whether the LBA of the next block the engine may ask for fits in 32 bits.
    pub fn next_lba_fits(&self) -> (r: bool)
        ensures
            r == lba_fits(self@),
    {
        if self.phase == BotPhase::ReadingBlocks {
            if (self.cur as u64) + 1 < self.blocks as u64 {
                (self.lba as u64) + (self.cur as u64) + 1 <= 0xFFFF_FFFFu64
            } else {
                true
            }
        } else if self.phase == BotPhase::WritingBlocks {
            (self.lba as u64) + (self.cur as u64) <= 0xFFFF_FFFFu64
        } else {
            true
        }
    }

    fn csw(&mut self, status: CommandStatus, residue: u32) -> (r: BotStep)
        ensures
            next_is(final(self)@, r, csw_step(old(self)@, status, residue)),
    {
        self.phase = BotPhase::Idle;
        BotStep::Host(
            BotAction::SendCsw(
                CommandStatusWrapper { tag: self.cbw.tag, data_residue: residue, status },
            ),
        )
    }

    fn respond(&mut self, t: usize) -> (r: BotStep)
        requires
            t <= old(self)@.cbw.data_transfer_length,
        ensures
            next_is(final(self)@, r, respond_step(old(self)@, t as int)),
    {
        if t == 0 {
            let dtl = self.cbw.data_transfer_length;
            self.csw(CommandStatus::Passed, dtl)
        } else {
            self.phase = BotPhase::Responding;
            self.pending = t as u32;
            BotStep::Host(BotAction::SendData(t))
        }
    }

    fn start(&mut self, vendor: &[u8; 8], product: &[u8; 16], revision: &[u8; 4]) -> (r: BotStep)
        requires
            bot_wf(old(self)@),
        ensures
            bot_wf(final(self)@),
            next_is(
                final(self)@,
                r,
                spec_start(old(self)@, old(self)@.cbw, vendor@, product@, revision@),
            ),
    {
        let dtl = self.cbw.data_transfer_length;
        match ScsiCommand::try_from(self.cbw.command[0]) {
            Ok(ScsiCommand::TestUnitReady) => self.csw(CommandStatus::Passed, 0),
            Ok(ScsiCommand::Inquiry) => {
                let len = self.scsi.handle_inquiry(vendor, product, revision, &mut self.data);
                let t = clamp_scsi_in_length(&self.cbw, len);
                self.respond(t)
            },
            Ok(ScsiCommand::ReadCapacity10) => {
                self.phase = BotPhase::AwaitCapacity;
                BotStep::QueryCapacity
            },
            Ok(ScsiCommand::RequestSense) => {
                let len = self.scsi.handle_request_sense(&mut self.data);
                let t = clamp_scsi_in_length(&self.cbw, len);
                self.respond(t)
            },
            Ok(ScsiCommand::ModeSense6) => {
                self.phase = BotPhase::AwaitModeWritable;
                BotStep::QueryWritable
            },
            Ok(ScsiCommand::Read10) => match validate_rdwr10(&self.cbw, true) {
                Err(st) => self.csw(st, dtl),
                Ok((n, s)) => {
                    if n == 0 {
                        self.csw(CommandStatus::Passed, 0)
                    } else {
                        proof {
                            lemma_validate_bounds(self.cbw@, true);
                        }
                        self.blocks = n;
                        self.block_size = s;
                        self.phase = BotPhase::AwaitReadBlockSize;
                        BotStep::QueryBlockSize
                    }
                },
            },
            Ok(ScsiCommand::Write10) => {
                self.phase = BotPhase::AwaitWriteWritable;
                BotStep::QueryWritable
            },
            _ => {
                self.scsi.set_sense(ScsiSenseKey::IllegalRequest, 0x20, 0x00);
                self.csw(CommandStatus::Failed, dtl)
            },
        }
    }

    /// A CBW arrives from the host (the engine is idle).
    pub fn on_cbw(&mut self, cbw_bytes: &[u8; 31], vendor: &[u8; 8], product: &[u8; 16], revision: &[u8; 4]) -> (r: BotStep)
        requires
            bot_wf(old(self)@),
            old(self)@.phase == BotPhase::Idle,
        ensures
            bot_wf(final(self)@),
            step_agrees(final(self)@, r),
            next_is(
                final(self)@,
                r,
                spec_on_cbw(old(self)@, cbw_bytes@, vendor@, product@, revision@),
            ),
    {
        match CommandBlockWrapper::from_bytes(cbw_bytes) {
            None => BotStep::Host(BotAction::ReadCbw),
            Some(c) => {
                self.cbw = c;
                self.start(vendor, product, revision)
            },
        }
    }

    /// READ CAPACITY(10): the device reported `total_blocks` blocks of `block_size` bytes.
    pub fn on_capacity(&mut self, total_blocks: u32, block_size: u32) -> (r: BotStep)
        requires
            bot_wf(old(self)@),
            old(self)@.phase == BotPhase::AwaitCapacity,
        ensures
            bot_wf(final(self)@),
            step_agrees(final(self)@, r),
            next_is(final(self)@, r, spec_on_capacity(old(self)@, total_blocks, block_size)),
            old(self)@.cbw.data_transfer_length == 0 ==> r matches BotStep::Host(
                BotAction::SendCsw(_),
            ),
    {
        let len = self.scsi.read_capacity_10(total_blocks, block_size, &mut self.data);
        if len == 0 {
            let dtl = self.cbw.data_transfer_length;
            self.csw(CommandStatus::Failed, dtl)
        } else {
            let t = clamp_scsi_in_length(&self.cbw, len);
            self.respond(t)
        }
    }

    /// MODE SENSE(6) or WRITE(10): the device reported whether it accepts writes.
    pub fn on_writable(&mut self, writable: bool) -> (r: BotStep)
        requires
            bot_wf(old(self)@),
            old(self)@.phase == BotPhase::AwaitModeWritable || old(self)@.phase
                == BotPhase::AwaitWriteWritable,
        ensures
            bot_wf(final(self)@),
            step_agrees(final(self)@, r),
            next_is(final(self)@, r, spec_on_writable(old(self)@, writable)),
            old(self)@.phase == BotPhase::AwaitModeWritable && old(self)@.cbw.data_transfer_length
                == 0 ==> r matches BotStep::Host(BotAction::SendCsw(_)),
    {
        let dtl = self.cbw.data_transfer_length;
        if self.phase == BotPhase::AwaitModeWritable {
            let len = self.scsi.handle_mode_sense_6(writable, &mut self.data);
            let t = clamp_scsi_in_length(&self.cbw, len);
            self.respond(t)
        } else if !writable {
            self.scsi.set_sense(ScsiSenseKey::DataProtect, 0x27, 0x00);
            self.csw(CommandStatus::Failed, dtl)
        } else {
            match validate_rdwr10(&self.cbw, false) {
                Err(st) => self.csw(st, dtl),
                Ok((n, s)) => {
                    if n == 0 {
                        self.csw(CommandStatus::Passed, 0)
                    } else {
                        proof {
                            lemma_validate_bounds(self.cbw@, false);
                        }
                        self.blocks = n;
                        self.block_size = s;
                        self.phase = BotPhase::AwaitWriteBlockSize;
                        BotStep::QueryBlockSize
                    }
                },
            }
        }
    }

    /// READ(10)/WRITE(10): the device reported its block size.
    pub fn on_block_size(&mut self, device_block_size: u32) -> (r: BotStep)
        requires
            bot_wf(old(self)@),
            old(self)@.phase == BotPhase::AwaitReadBlockSize || old(self)@.phase
                == BotPhase::AwaitWriteBlockSize,
        ensures
            bot_wf(final(self)@),
            step_agrees(final(self)@, r),
            next_is(final(self)@, r, spec_on_block_size(old(self)@, device_block_size)),
    {
        if self.block_size != device_block_size || self.block_size > SECTOR_BUFFER_LEN {
            self.scsi.set_sense(ScsiSenseKey::IllegalRequest, 0x20, 0x00);
            let dtl = self.cbw.data_transfer_length;
            self.csw(CommandStatus::Failed, dtl)
        } else {
            let lba = read_be_u32(&self.cbw.command, 2);
            self.lba = lba;
            self.cur = 0;
            self.xferred = 0;
            if self.phase == BotPhase::AwaitReadBlockSize {
                self.phase = BotPhase::AwaitBlockRead;
                BotStep::ReadBlock(lba)
            } else {
                self.phase = BotPhase::WritingBlocks;
                BotStep::Host(BotAction::ReceiveData(self.block_size as usize))
            }
        }
    }

    /// READ(10): the device read the current block into the data buffer (`ok`) or failed.
    pub fn on_block_read(&mut self, ok: bool) -> (r: BotStep)
        requires
            bot_wf(old(self)@),
            old(self)@.phase == BotPhase::AwaitBlockRead,
        ensures
            bot_wf(final(self)@),
            step_agrees(final(self)@, r),
            next_is(final(self)@, r, spec_on_block_read(old(self)@, ok)),
    {
        if ok {
            self.phase = BotPhase::ReadingBlocks;
            BotStep::Host(BotAction::SendData(self.block_size as usize))
        } else {
            proof {
                lemma_block_bound(self.cur, self.blocks, self.block_size, self.cbw.data_transfer_length);
            }
            self.scsi.set_sense(ScsiSenseKey::MediumError, 0x11, 0x00);
            let residue = self.cbw.data_transfer_length - self.xferred;
            self.csw(CommandStatus::Failed, residue)
        }
    }

    /// The data the engine asked to send was taken by the host (`ok`) or not.
    pub fn on_data_sent(&mut self, ok: bool) -> (r: BotStep)
        requires
            bot_wf(old(self)@),
            old(self)@.phase == BotPhase::Responding || old(self)@.phase == BotPhase::ReadingBlocks,
            ok ==> lba_fits(old(self)@),
        ensures
            bot_wf(final(self)@),
            step_agrees(final(self)@, r),
            next_is(final(self)@, r, spec_on_data_sent(old(self)@, ok)),
    {
        let dtl = self.cbw.data_transfer_length;
        if self.phase == BotPhase::Responding {
            if ok {
                self.csw(CommandStatus::Passed, dtl - self.pending)
            } else {
                self.csw(CommandStatus::Failed, dtl)
            }
        } else {
            proof {
                lemma_block_bound(self.cur, self.blocks, self.block_size, dtl);
            }
            if !ok {
                self.scsi.set_sense(ScsiSenseKey::MediumError, 0x11, 0x00);
                self.csw(CommandStatus::Failed, dtl - self.xferred)
            } else {
                self.xferred = self.xferred + self.block_size;
                self.cur = self.cur + 1;
                if self.cur < self.blocks {
                    self.phase = BotPhase::AwaitBlockRead;
                    BotStep::ReadBlock(self.lba + self.cur)
                } else {
                    let x = self.xferred;
                    self.csw(CommandStatus::Passed, dtl - x)
                }
            }
        }
    }

    /// WRITE(10): the current block came from the host (`ok`, its bytes in `data`) or did not.
    pub fn on_data_received(&mut self, ok: bool, data: &[u8]) -> (r: BotStep)
        requires
            bot_wf(old(self)@),
            old(self)@.phase == BotPhase::WritingBlocks,
            data@.len() == old(self)@.block_size,
            ok ==> lba_fits(old(self)@),
        ensures
            bot_wf(final(self)@),
            step_agrees(final(self)@, r),
            next_is(final(self)@, r, spec_on_data_received(old(self)@, ok, data@)),
    {
        if ok {
            let n = data.len();
            let mut buf = self.data;
            let mut i: usize = 0;
            while i < n
                invariant
                    n == data@.len() <= 512,
                    i <= n,
                    forall|j: int| 0 <= j < i ==> buf@[j] == data@[j],
                    forall|j: int| n <= j < 512 ==> buf@[j] == old(self).data@[j],
                decreases n - i,
            {
                buf[i] = data[i];
                i = i + 1;
            }
            assert(buf@ =~= data@ + old(self).data@.skip(n as int));
            self.data = buf;
            self.phase = BotPhase::AwaitBlockWritten;
            BotStep::WriteBlock(self.lba + self.cur)
        } else {
            proof {
                lemma_block_bound(self.cur, self.blocks, self.block_size, self.cbw.data_transfer_length);
            }
            self.scsi.set_sense(ScsiSenseKey::MediumError, 0x03, 0x00);
            let residue = self.cbw.data_transfer_length - self.xferred;
            self.csw(CommandStatus::Failed, residue)
        }
    }

    /// WRITE(10): the device wrote the current block (`ok`) or failed.
    pub fn on_block_written(&mut self, ok: bool) -> (r: BotStep)
        requires
            bot_wf(old(self)@),
            old(self)@.phase == BotPhase::AwaitBlockWritten,
        ensures
            bot_wf(final(self)@),
            step_agrees(final(self)@, r),
            next_is(final(self)@, r, spec_on_block_written(old(self)@, ok)),
    {
        let dtl = self.cbw.data_transfer_length;
        proof {
            lemma_block_bound(self.cur, self.blocks, self.block_size, dtl);
        }
        if !ok {
            self.scsi.set_sense(ScsiSenseKey::MediumError, 0x03, 0x00);
            self.csw(CommandStatus::Failed, dtl - self.xferred)
        } else {
            self.xferred = self.xferred + self.block_size;
            self.cur = self.cur + 1;
            if self.cur < self.blocks {
                self.phase = BotPhase::WritingBlocks;
                BotStep::Host(BotAction::ReceiveData(self.block_size as usize))
            } else {
                let x = self.xferred;
                self.csw(CommandStatus::Passed, dtl - x)
            }
        }
    }

    /// Asks `dev` the question of `step` and hands the answer to the engine.
    fn answer<B: BlockDevice>(&mut self, dev: &mut B, step: BotStep) -> (res: (BotStep, Ghost<DeviceAnswer>))
        requires
            bot_wf(old(self)@),
            step_agrees(old(self)@, step),
            !(step is Host),
        ensures
            bot_wf(final(self)@),
            step_agrees(final(self)@, res.0),
            final(self)@.cbw =~= old(self)@.cbw,
            device_answered::<B>(old(self)@, step, res.1@),
            next_is(final(self)@, res.0, spec_answer(old(self)@, res.1@)),
            step_rank(final(self)@, res.0) < step_rank(old(self)@, step),
            step matches BotStep::ReadBlock(l) ==> res.1@ matches DeviceAnswer::BlockRead(ok, after)
                && exists|d: &mut B, b: &mut [u8], rr: Result<(), ()>|
                #[trigger] call_ensures(B::read_block, (d, l, b), rr) && final(b)@ == after,
    {
        match step {
            BotStep::Host(a) => {
                proof {
                    assert(false);
                }
                (step, Ghost(DeviceAnswer::Writable(false)))
            },
            BotStep::QueryCapacity => {
                let n = dev.block_count();
                let s = dev.block_size();
                let next = self.on_capacity(n, s);
                (next, Ghost(DeviceAnswer::Capacity(n, s)))
            },
            BotStep::QueryWritable => {
                let w = dev.is_writable();
                let next = self.on_writable(w);
                (next, Ghost(DeviceAnswer::Writable(w)))
            },
            BotStep::QueryBlockSize => {
                let s = dev.block_size();
                let next = self.on_block_size(s);
                (next, Ghost(DeviceAnswer::BlockSize(s)))
            },
            BotStep::ReadBlock(lba) => {
                let ghost before = self@;
                let res = dev.read_block(lba, &mut self.data);
                let ghost after = self.data@;
                let ok = res.is_ok();
                proof {
                    assert(self@ =~= BotModel { data: after, ..before });
                }
                let next = self.on_block_read(ok);
                (next, Ghost(DeviceAnswer::BlockRead(ok, after)))
            },
            BotStep::WriteBlock(lba) => {
                let bs = self.block_size as usize;
                let b = vstd::slice::slice_subrange(self.data.as_slice(), 0, bs);
                let res = dev.write_block(lba, b);
                let ok = res.is_ok();
                let next = self.on_block_written(ok);
                (next, Ghost(DeviceAnswer::BlockWritten(ok)))
            },
        }
    }

    /// Answers the engine's device questions from `dev` until the engine asks
    /// for an endpoint action, and returns that action. Each question goes to
    /// the device method it names with the arguments the engine's state gives
    /// (`drive_trace`); whatever the device answers, the engine's invariant
    /// holds, the action agrees with its state and the command being served
    /// stays the same.
    pub fn drive<B: BlockDevice>(&mut self, dev: &mut B, step: BotStep) -> (r: BotAction)
        requires
            bot_wf(old(self)@),
            step_agrees(old(self)@, step),
        ensures
            bot_wf(final(self)@),
            action_agrees(final(self)@, r),
            final(self)@.cbw =~= old(self)@.cbw,
            step matches BotStep::Host(a) ==> r == a && final(self)@ =~= old(self)@,
            exists|answers: Seq<DeviceAnswer>|
                #[trigger] drive_trace::<B>(old(self)@, step, answers, final(self)@, r) && forall|i: int|
                    #![trigger answers[i]]
                    0 <= i < answers.len() ==> (trace_step(old(self)@, step, answers, i) matches BotStep::ReadBlock(l)
                        ==> answers[i] matches DeviceAnswer::BlockRead(ok, after) && exists|
                        d: &mut B,
                        b: &mut [u8],
                        rr: Result<(), ()>,
                    | #[trigger] call_ensures(B::read_block, (d, l, b), rr) && final(b)@ == after),
        decreases step_rank(old(self)@, step),
    {
        if let BotStep::Host(a) = step {
            proof {
                assert(drive_trace::<B>(self@, step, Seq::empty(), self@, a));
            }
            return a;
        }
        let ghost start = self@;
        let (next, Ghost(ans)) = self.answer(dev, step);
        let ghost mid = self@;
        let r = self.drive(dev, next);
        proof {
            assert(mid == spec_answer(start, ans).0);
            let rest = choose|answers: Seq<DeviceAnswer>|
                #[trigger] drive_trace::<B>(mid, next, answers, self@, r) && forall|i: int|
                    #![trigger answers[i]]
                    0 <= i < answers.len() ==> (trace_step(mid, next, answers, i) matches BotStep::ReadBlock(l)
                        ==> answers[i] matches DeviceAnswer::BlockRead(ok, after) && exists|
                        d: &mut B,
                        b: &mut [u8],
                        rr: Result<(), ()>,
                    | #[trigger] call_ensures(B::read_block, (d, l, b), rr) && final(b)@ == after);
            let all = seq![ans] + rest;
            assert(all[0] == ans);
            assert(all.drop_first() =~= rest);
            assert(drive_trace::<B>(start, step, all, self@, r));
            assert forall|i: int| #![trigger all[i]] 0 <= i < all.len() implies (trace_step(start, step, all, i) matches BotStep::ReadBlock(l)
                ==> all[i] matches DeviceAnswer::BlockRead(ok, after) && exists|
                d: &mut B,
                b: &mut [u8],
                rr: Result<(), ()>,
            | #[trigger] call_ensures(B::read_block, (d, l, b), rr) && final(b)@ == after) by {
                if i > 0 {
                    assert(trace_step(start, step, all, i) == trace_step(mid, next, rest, i - 1));
                    assert(all[i] == rest[i - 1]);
                }
            }
        }
        r
    }

    /// Serves a CBW that arrived from the host, asking `dev` what the command needs.
    pub fn command<B: BlockDevice>(&mut self, dev: &mut B, cbw_bytes: &[u8; 31], vendor: &[u8; 8], product: &[u8; 16], revision: &[u8; 4]) -> (r: BotAction)
        requires
            bot_wf(old(self)@),
            old(self)@.phase == BotPhase::Idle,
        ensures
            bot_wf(final(self)@),
            action_agrees(final(self)@, r),
            spec_cbw_from_bytes(cbw_bytes@) is None ==> r == BotAction::ReadCbw && final(self)@
                =~= old(self)@,
            spec_cbw_from_bytes(cbw_bytes@) matches Some(c) ==> final(self)@.cbw =~= c,
            spec_on_cbw(old(self)@, cbw_bytes@, vendor@, product@, revision@).1 matches BotStep::Host(a) ==> r == a && final(self)@ =~= spec_on_cbw(old(self)@, cbw_bytes@, vendor@, product@, revision@).0,
            exists|answers: Seq<DeviceAnswer>|
                #[trigger] drive_trace::<B>(spec_on_cbw(old(self)@, cbw_bytes@, vendor@, product@, revision@).0, spec_on_cbw(old(self)@, cbw_bytes@, vendor@, product@, revision@).1, answers, final(self)@, r) && forall|i: int|
                    #![trigger answers[i]]
                    0 <= i < answers.len() ==> (trace_step(spec_on_cbw(old(self)@, cbw_bytes@, vendor@, product@, revision@).0, spec_on_cbw(old(self)@, cbw_bytes@, vendor@, product@, revision@).1, answers, i) matches BotStep::ReadBlock(l)
                        ==> answers[i] matches DeviceAnswer::BlockRead(ok, after) && exists|
                        d: &mut B,
                        b: &mut [u8],
                        rr: Result<(), ()>,
                    | #[trigger] call_ensures(B::read_block, (d, l, b), rr) && final(b)@ == after),
    {
        let step = self.on_cbw(cbw_bytes, vendor, product, revision);
        proof {
            assert(self@ == spec_on_cbw(old(self)@, cbw_bytes@, vendor@, product@, revision@).0);
        }
        self.drive(dev, step)
    }

    /// Continues after the host took (`ok`) or did not take the data sent.
    pub fn data_sent<B: BlockDevice>(&mut self, dev: &mut B, ok: bool) -> (r: BotAction)
        requires
            bot_wf(old(self)@),
            old(self)@.phase == BotPhase::Responding || old(self)@.phase == BotPhase::ReadingBlocks,
            ok ==> lba_fits(old(self)@),
        ensures
            bot_wf(final(self)@),
            action_agrees(final(self)@, r),
            final(self)@.cbw =~= old(self)@.cbw,
            spec_on_data_sent(old(self)@, ok).1 matches BotStep::Host(a) ==> r == a && final(self)@
                =~= spec_on_data_sent(old(self)@, ok).0,
            exists|answers: Seq<DeviceAnswer>|
                #[trigger] drive_trace::<B>(spec_on_data_sent(old(self)@, ok).0, spec_on_data_sent(old(self)@, ok).1, answers, final(self)@, r) && forall|i: int|
                    #![trigger answers[i]]
                    0 <= i < answers.len() ==> (trace_step(spec_on_data_sent(old(self)@, ok).0, spec_on_data_sent(old(self)@, ok).1, answers, i) matches BotStep::ReadBlock(l)
                        ==> answers[i] matches DeviceAnswer::BlockRead(ok, after) && exists|
                        d: &mut B,
                        b: &mut [u8],
                        rr: Result<(), ()>,
                    | #[trigger] call_ensures(B::read_block, (d, l, b), rr) && final(b)@ == after),
    {
        let step = self.on_data_sent(ok);
        proof {
            assert(self@ == spec_on_data_sent(old(self)@, ok).0);
        }
        self.drive(dev, step)
    }

    /// Continues after a block came from the host (`ok`, its bytes in `data`) or did not.
    pub fn data_received<B: BlockDevice>(&mut self, dev: &mut B, ok: bool, data: &[u8]) -> (r: BotAction)
        requires
            bot_wf(old(self)@),
            old(self)@.phase == BotPhase::WritingBlocks,
            data@.len() == old(self)@.block_size,
            ok ==> lba_fits(old(self)@),
        ensures
            bot_wf(final(self)@),
            action_agrees(final(self)@, r),
            final(self)@.cbw =~= old(self)@.cbw,
            spec_on_data_received(old(self)@, ok, data@).1 matches BotStep::Host(a) ==> r == a
                && final(self)@ =~= spec_on_data_received(old(self)@, ok, data@).0,
            exists|answers: Seq<DeviceAnswer>|
                #[trigger] drive_trace::<B>(spec_on_data_received(old(self)@, ok, data@).0, spec_on_data_received(old(self)@, ok, data@).1, answers, final(self)@, r) && forall|i: int|
                    #![trigger answers[i]]
                    0 <= i < answers.len() ==> (trace_step(spec_on_data_received(old(self)@, ok, data@).0, spec_on_data_received(old(self)@, ok, data@).1, answers, i) matches BotStep::ReadBlock(l)
                        ==> answers[i] matches DeviceAnswer::BlockRead(ok, after) && exists|
                        d: &mut B,
                        b: &mut [u8],
                        rr: Result<(), ()>,
                    | #[trigger] call_ensures(B::read_block, (d, l, b), rr) && final(b)@ == after),
    {
        let step = self.on_data_received(ok, data);
        proof {
            assert(self@ == spec_on_data_received(old(self)@, ok, data@).0);
        }
        self.drive(dev, step)
    }
}


/// A step of a command in progress: it never asks for a CBW, and it asks to
/// send the CSW exactly when it leaves the engine idle.
pub open spec fn command_step(n: BotModel, st: BotStep) -> bool {
    &&& st != BotStep::Host(BotAction::ReadCbw)
    &&& (st matches BotStep::Host(BotAction::SendCsw(_))) <==> n.phase == BotPhase::Idle
}

/// Each command that a valid CBW starts ends with exactly one CSW, after
/// which the engine reads the next CBW: starting the command and every later
/// step (a device answer, data sent, data received) is a `command_step`, so the
/// engine stays busy, asking for no CBW, until the one step that sends the
/// CSW; that CSW answers the CBW's tag with a residue within its transfer
/// length and leaves the engine idle, where the only step it takes is the next
/// CBW (`on_cbw` asks an idle engine, every other step a busy one).
pub proof fn lemma_one_csw_per_command(
    m: BotModel,
    c: CbwFields,
    vendor: Seq<u8>,
    product: Seq<u8>,
    revision: Seq<u8>,
    a: DeviceAnswer,
    ok: bool,
    d: Seq<u8>,
)
    requires
        bot_wf(m),
        c.command.len() == 16,
    ensures
        command_step(spec_start(m, c, vendor, product, revision).0, spec_start(m, c, vendor, product, revision).1),
        spec_start(m, c, vendor, product, revision).0.cbw == c,
        m.phase != BotPhase::Idle ==> command_step(spec_answer(m, a).0, spec_answer(m, a).1),
        (m.phase == BotPhase::Responding || m.phase == BotPhase::ReadingBlocks) ==> command_step(
            spec_on_data_sent(m, ok).0,
            spec_on_data_sent(m, ok).1,
        ),
        m.phase == BotPhase::WritingBlocks ==> command_step(
            spec_on_data_received(m, ok, d).0,
            spec_on_data_received(m, ok, d).1,
        ),
        forall|act: BotAction| #[trigger] action_agrees(m, act) ==> ((act is ReadCbw || act is SendCsw)
            <==> m.phase == BotPhase::Idle),
        forall|act: BotAction| #[trigger] action_agrees(m, act) ==> (act matches BotAction::SendCsw(w)
            ==> w.tag == m.cbw.tag && w.data_residue <= m.cbw.data_transfer_length),
{
}

/// When the host expects no data (transfer length 0), the engine asks for no
/// data stage: the only host actions are reading a CBW and sending the CSW.
pub proof fn lemma_no_data_stage(m: BotModel, a: BotAction)
    requires
        bot_wf(m),
        action_agrees(m, a),
        m.cbw.data_transfer_length == 0,
    ensures
        a is ReadCbw || a is SendCsw,
{
    if m.phase == BotPhase::ReadingBlocks || m.phase == BotPhase::WritingBlocks {
        assert(m.blocks * m.block_size >= m.block_size) by (nonlinear_arith)
            requires
                m.blocks >= 1,
                m.block_size >= 1,
        ;
    }
}

/// A READ(10) whose last block the host took ends PASSED with the bytes the
/// command did not move as residue: the transfer length less blocks times
/// block size.
pub proof fn lemma_read_completes(m: BotModel)
    requires
        bot_wf(m),
        m.phase == BotPhase::ReadingBlocks,
        m.cur + 1 == m.blocks,
    ensures
        spec_on_data_sent(m, true).1 == BotStep::Host(
            BotAction::SendCsw(
                CommandStatusWrapper {
                    tag: m.cbw.tag,
                    data_residue: (m.cbw.data_transfer_length - m.blocks * m.block_size) as u32,
                    status: CommandStatus::Passed,
                },
            ),
        ),
{
    lemma_block_bound(m.cur, m.blocks, m.block_size, m.cbw.data_transfer_length);
}

/// A WRITE(10) whose last block the device wrote ends PASSED with the bytes
/// the command did not move as residue: the transfer length less blocks times
/// block size.
pub proof fn lemma_write_completes(m: BotModel)
    requires
        bot_wf(m),
        m.phase == BotPhase::AwaitBlockWritten,
        m.cur + 1 == m.blocks,
    ensures
        spec_on_block_written(m, true).1 == BotStep::Host(
            BotAction::SendCsw(
                CommandStatusWrapper {
                    tag: m.cbw.tag,
                    data_residue: (m.cbw.data_transfer_length - m.blocks * m.block_size) as u32,
                    status: CommandStatus::Passed,
                },
            ),
        ),
{
    lemma_block_bound(m.cur, m.blocks, m.block_size, m.cbw.data_transfer_length);
}

/// REQUEST SENSE reports the sense state that the previous command left (its
/// key, ASC and ASCQ at bytes 2, 12 and 13 of fixed-format sense data) and
/// clears it.
pub proof fn lemma_request_sense_reports(m: BotModel, c: CbwFields, vendor: Seq<u8>, product: Seq<u8>, revision: Seq<u8>)
    requires
        bot_wf(m),
        c.command.len() == 16,
        c.command[0] == 0x03,
    ensures
        ({
            let n = spec_start(m, c, vendor, product, revision).0;
            &&& n.data.take(18) == sense_response(m.sense_key, m.asc, m.ascq, 18)
            &&& n.data[2] == m.sense_key.spec_to_u8() & 0x0F
            &&& n.data[12] == m.asc
            &&& n.data[13] == m.ascq
            &&& n.sense_key == ScsiSenseKey::NoSense && n.asc == 0 && n.ascq == 0
        }),
{
    let n = spec_start(m, c, vendor, product, revision).0;
    assert(n.data.take(18) =~= sense_response(m.sense_key, m.asc, m.ascq, 18));
}

/// A command with an operation code the engine does not serve fails with
/// ILLEGAL REQUEST (ASC 0x20) and the full transfer length as residue.
pub proof fn lemma_unsupported_command(m: BotModel, c: CbwFields, vendor: Seq<u8>, product: Seq<u8>, revision: Seq<u8>)
    requires
        c.command.len() == 16,
        ScsiCommand::spec_from_u8(c.command[0]) is None,
    ensures
        ({
            let (n, s) = spec_start(m, c, vendor, product, revision);
            &&& n.phase == BotPhase::Idle
            &&& n.sense_key == ScsiSenseKey::IllegalRequest && n.asc == 0x20 && n.ascq == 0
            &&& s == BotStep::Host(
                BotAction::SendCsw(
                    CommandStatusWrapper {
                        tag: c.tag,
                        data_residue: c.data_transfer_length,
                        status: CommandStatus::Failed,
                    },
                ),
            )
        }),
{
}


/// A READ(10) or WRITE(10) whose block size the device confirms starts at the
/// full 32-bit big-endian LBA of CDB bytes 2..6, with nothing moved yet: a
/// READ asks the device for that block, a WRITE asks the host for a block of
/// data to write there.
pub proof fn lemma_transfer_starts_at_cdb_lba(m: BotModel, bs: u32)
    requires
        bot_wf(m),
        m.cbw.command.len() == 16,
        m.phase == BotPhase::AwaitReadBlockSize || m.phase == BotPhase::AwaitWriteBlockSize,
        m.block_size == bs,
        bs <= 512,
    ensures
        ({
            let c = m.cbw.command;
            let lba = 16777216 * c[2] + 65536 * c[3] + 256 * c[4] + c[5];
            let (n, st) = spec_on_block_size(m, bs);
            &&& n.lba == lba && n.cur == 0 && n.xferred == 0
            &&& m.phase == BotPhase::AwaitReadBlockSize ==> (st matches BotStep::ReadBlock(l) && l == lba)
            &&& m.phase == BotPhase::AwaitWriteBlockSize ==> n.phase == BotPhase::WritingBlocks && st
                == BotStep::Host(BotAction::ReceiveData(bs as usize))
        }),
{
}

/// The blocks of a READ(10) or WRITE(10) follow one another: after block
/// `lba + cur` was sent to the host, a READ asks the device for block
/// `lba + cur + 1` (while blocks remain); the data of a WRITE block received
/// from the host goes to the device as block `lba + cur`, in the first bytes of
/// the buffer; after it was written the next block's data is asked for.
pub proof fn lemma_transfer_next_blocks(m: BotModel, d: Seq<u8>)
    requires
        bot_wf(m),
        lba_fits(m),
    ensures
        m.phase == BotPhase::ReadingBlocks && m.cur + 1 < m.blocks ==> (spec_on_data_sent(m, true).1
            matches BotStep::ReadBlock(l) && l == m.lba + m.cur + 1 && spec_on_data_sent(
            m,
            true,
        ).0.cur == m.cur + 1),
        m.phase == BotPhase::WritingBlocks && d.len() == m.block_size ==> (spec_on_data_received(
            m,
            true,
            d,
        ).1 matches BotStep::WriteBlock(l) && l == m.lba + m.cur && spec_on_data_received(
            m,
            true,
            d,
        ).0.data.take(d.len() as int) == d),
        m.phase == BotPhase::AwaitBlockWritten && m.cur + 1 < m.blocks ==> spec_on_block_written(
            m,
            true,
        ).1 == BotStep::Host(BotAction::ReceiveData(m.block_size as usize)) && spec_on_block_written(
            m,
            true,
        ).0.cur == m.cur + 1,
{
    if m.phase == BotPhase::WritingBlocks && d.len() == m.block_size {
        let n = spec_on_data_received(m, true, d).0;
        assert(n.data.take(d.len() as int) =~= d);
    }
}


/// The class requests of the bulk-only transport (BOT 1.0 section 3):
/// Bulk-Only Mass Storage Reset is 0xFF and Get Max LUN is 0xFE.
pub proof fn lemma_class_request_codes()
    ensures
        MSC_REQ_BOT_RESET == 0xFF,
        MSC_REQ_GET_MAX_LUN == 0xFE,
        SECTOR_BUFFER_LEN == 512,
{
}

/// READ(10)/WRITE(10) validation, case by case (BOT 1.0 section 6.7), with
/// the block count the big-endian CDB bytes 7..9 and the direction bit 7 of the
/// flags: no data expected and no blocks passes with nothing to move; no data
/// expected but blocks asked, or data in the direction opposite to the
/// command, is a phase error; data expected but no blocks fails; fewer bytes
/// expected than blocks is a phase error; otherwise all blocks move, each of
/// the expected length divided by the block count.
pub proof fn lemma_validate_cases(c: CbwFields, is_read: bool)
    requires
        c.command.len() == 16,
    ensures
        ({
            let n = 256 * c.command[7] + c.command[8];
            let d = c.data_transfer_length;
            let dir_in = c.flags >= 0x80;
            let r = spec_validate_rdwr10(c, is_read);
            &&& d == 0 && n == 0 ==> r == Ok::<(u32, u32), CommandStatus>((0u32, 0u32))
            &&& d == 0 && n > 0 ==> r == Err::<(u32, u32), CommandStatus>(CommandStatus::PhaseError)
            &&& d > 0 && is_read != dir_in ==> r == Err::<(u32, u32), CommandStatus>(
                CommandStatus::PhaseError,
            )
            &&& d > 0 && is_read == dir_in && n == 0 ==> r == Err::<(u32, u32), CommandStatus>(
                CommandStatus::Failed,
            )
            &&& d > 0 && is_read == dir_in && 0 < n && d < n ==> r == Err::<(u32, u32), CommandStatus>(
                CommandStatus::PhaseError,
            )
            &&& d > 0 && is_read == dir_in && 0 < n <= d ==> (r matches Ok((k, sz)) && k == n && sz
                == d as int / n)
        }),
{
    let f = c.flags;
    assert((f & 0x80 == 0) == (f < 0x80)) by (bit_vector);
    let n = 256 * c.command[7] + c.command[8];
    let d = c.data_transfer_length as int;
    if 0 < n && d < n {
        assert(d / n == 0) by (nonlinear_arith)
            requires
                0 <= d < n,
        ;
    }
    if 0 < n && n <= d {
        assert(d / n >= 1) by (nonlinear_arith)
            requires
                0 < n <= d,
        ;
    }
}

/// The sense data and status a failing command leaves, as TinyUSB's MSC
/// device sets them: an unsupported command, or a READ(10)/WRITE(10) whose
/// block size is not the device's (or exceeds the buffer), is ILLEGAL REQUEST
/// with ASC 0x20; a READ CAPACITY(10) of a device with no blocks or a zero
/// block size is NOT READY with ASC 0x3A; a WRITE(10) to a write-protected
/// device is DATA PROTECT with ASC 0x27; a failed block read is MEDIUM ERROR
/// with ASC 0x11, a failed block write (or block data not received) MEDIUM
/// ERROR with ASC 0x03. Each fails the command with the CBW's tag and the
/// bytes not moved as residue.
pub proof fn lemma_failure_sense(m: BotModel, total_blocks: u32, bs: u32)
    requires
        bot_wf(m),
    ensures
        m.phase == BotPhase::AwaitCapacity && (total_blocks == 0 || bs == 0) ==> ({
            let (n, st) = spec_on_capacity(m, total_blocks, bs);
            &&& n.sense_key == ScsiSenseKey::NotReady && n.asc == 0x3A && n.ascq == 0
            &&& st == BotStep::Host(BotAction::SendCsw(CommandStatusWrapper { tag: m.cbw.tag, data_residue: m.cbw.data_transfer_length, status: CommandStatus::Failed }))
        }),
        m.phase == BotPhase::AwaitWriteWritable ==> ({
            let (n, st) = spec_on_writable(m, false);
            &&& n.sense_key == ScsiSenseKey::DataProtect && n.asc == 0x27 && n.ascq == 0
            &&& st == BotStep::Host(BotAction::SendCsw(CommandStatusWrapper { tag: m.cbw.tag, data_residue: m.cbw.data_transfer_length, status: CommandStatus::Failed }))
        }),
        (m.phase == BotPhase::AwaitReadBlockSize || m.phase == BotPhase::AwaitWriteBlockSize) && (bs
            != m.block_size || bs > 512) ==> ({
            let (n, st) = spec_on_block_size(m, bs);
            &&& n.sense_key == ScsiSenseKey::IllegalRequest && n.asc == 0x20 && n.ascq == 0
            &&& st == BotStep::Host(BotAction::SendCsw(CommandStatusWrapper { tag: m.cbw.tag, data_residue: m.cbw.data_transfer_length, status: CommandStatus::Failed }))
        }),
        m.phase == BotPhase::AwaitBlockRead ==> ({
            let (n, st) = spec_on_block_read(m, false);
            &&& n.sense_key == ScsiSenseKey::MediumError && n.asc == 0x11 && n.ascq == 0
            &&& st == BotStep::Host(BotAction::SendCsw(CommandStatusWrapper { tag: m.cbw.tag, data_residue: (m.cbw.data_transfer_length - m.cur * m.block_size) as u32, status: CommandStatus::Failed }))
        }),
        m.phase == BotPhase::ReadingBlocks ==> ({
            let (n, st) = spec_on_data_sent(m, false);
            &&& n.sense_key == ScsiSenseKey::MediumError && n.asc == 0x11 && n.ascq == 0
            &&& st == BotStep::Host(BotAction::SendCsw(CommandStatusWrapper { tag: m.cbw.tag, data_residue: (m.cbw.data_transfer_length - m.cur * m.block_size) as u32, status: CommandStatus::Failed }))
        }),
        m.phase == BotPhase::AwaitBlockWritten ==> ({
            let (n, st) = spec_on_block_written(m, false);
            &&& n.sense_key == ScsiSenseKey::MediumError && n.asc == 0x03 && n.ascq == 0
            &&& st == BotStep::Host(BotAction::SendCsw(CommandStatusWrapper { tag: m.cbw.tag, data_residue: (m.cbw.data_transfer_length - m.cur * m.block_size) as u32, status: CommandStatus::Failed }))
        }),
        m.phase == BotPhase::WritingBlocks ==> ({
            let (n, st) = spec_on_data_received(m, false, seq![]);
            &&& n.sense_key == ScsiSenseKey::MediumError && n.asc == 0x03 && n.ascq == 0
            &&& st == BotStep::Host(BotAction::SendCsw(CommandStatusWrapper { tag: m.cbw.tag, data_residue: (m.cbw.data_transfer_length - m.cur * m.block_size) as u32, status: CommandStatus::Failed }))
        }),
{
}


/// How a response to the host ends its command: TEST UNIT READY passes at
/// once with residue 0; an INQUIRY or REQUEST SENSE whose clamped length is 0
/// passes at once with the whole transfer length as residue, and otherwise
/// sends that many bytes of the response; a response the host took passes
/// with the bytes it did not get as residue, one it did not take fails with
/// the whole transfer length as residue.
pub proof fn lemma_response_outcomes(m: BotModel, c: CbwFields, vendor: Seq<u8>, product: Seq<u8>, revision: Seq<u8>)
    requires
        bot_wf(m),
        c.command.len() == 16,
        vendor.len() == 8,
        product.len() == 16,
        revision.len() == 4,
    ensures
        c.command[0] == 0x00 ==> spec_start(m, c, vendor, product, revision).1 == BotStep::Host(
            BotAction::SendCsw(
                CommandStatusWrapper { tag: c.tag, data_residue: 0, status: CommandStatus::Passed },
            ),
        ),
        c.command[0] == 0x12 ==> ({
            let t = spec_clamp_in_length(c, 36);
            let (n, st) = spec_start(m, c, vendor, product, revision);
            &&& t == 0 ==> st == BotStep::Host(
                BotAction::SendCsw(
                    CommandStatusWrapper {
                        tag: c.tag,
                        data_residue: c.data_transfer_length,
                        status: CommandStatus::Passed,
                    },
                ),
            )
            &&& t > 0 ==> st == BotStep::Host(BotAction::SendData(t as usize)) && n.data.take(t)
                == inquiry_response(vendor, product, revision, 36).take(t)
        }),
        m.phase == BotPhase::Responding ==> spec_on_data_sent(m, true).1 == BotStep::Host(
            BotAction::SendCsw(
                CommandStatusWrapper {
                    tag: m.cbw.tag,
                    data_residue: (m.cbw.data_transfer_length - m.pending) as u32,
                    status: CommandStatus::Passed,
                },
            ),
        ) && spec_on_data_sent(m, false).1 == BotStep::Host(
            BotAction::SendCsw(
                CommandStatusWrapper {
                    tag: m.cbw.tag,
                    data_residue: m.cbw.data_transfer_length,
                    status: CommandStatus::Failed,
                },
            ),
        ),
{
    if c.command[0] == 0x12 {
        let t = spec_clamp_in_length(c, 36);
        let n = spec_start(m, c, vendor, product, revision).0;
        if t > 0 {
            assert(n.data.take(t) =~= inquiry_response(vendor, product, revision, 36).take(t));
        }
    }
}

} // verus!
