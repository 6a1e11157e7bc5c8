//! USB Mass Storage Class (MSC) bulk-only transport and SCSI definitions.
use crate::codec::{le32, le32_bytes, put_le32, read_le_u32, write_le_u32};
use vstd::prelude::*;

verus! {

/// 'USBC'
pub const CBW_SIGNATURE: u32 = 0x4342_5355;

/// 'USBS'
pub const CSW_SIGNATURE: u32 = 0x5342_5355;

pub const CBW_SIZE: usize = 31;

pub const CSW_SIZE: usize = 13;

#[derive(Copy, Clone, PartialEq, Eq, Structural, Hash, Debug)]
pub enum MscSubclass {
    Rbc,
    SffMmc,
    Qic,
    Ufi,
    Sff,
    Scsi,
}

impl MscSubclass {
    pub open spec fn spec_to_u8(self) -> u8 {
        match self {
            MscSubclass::Rbc => 1,
            MscSubclass::SffMmc => 2,
            MscSubclass::Qic => 3,
            MscSubclass::Ufi => 4,
            MscSubclass::Sff => 5,
            MscSubclass::Scsi => 6,
        }
    }

    /// The subclass code (1 to 6).
    #[verifier::when_used_as_spec(spec_to_u8)]
    pub fn to_u8(self) -> (r: u8)
        ensures
            r == self.spec_to_u8(),
    {
        match self {
            MscSubclass::Rbc => 1,
            MscSubclass::SffMmc => 2,
            MscSubclass::Qic => 3,
            MscSubclass::Ufi => 4,
            MscSubclass::Sff => 5,
            MscSubclass::Scsi => 6,
        }
    }
}

#[derive(Copy, Clone, PartialEq, Eq, Structural, Hash, Debug)]
pub enum MscProtocol {
    CbiWithInterrupt,
    CbiNoInterrupt,
    BulkOnly,
}

impl MscProtocol {
    pub open spec fn spec_to_u8(self) -> u8 {
        match self {
            MscProtocol::CbiWithInterrupt => 0,
            MscProtocol::CbiNoInterrupt => 1,
            MscProtocol::BulkOnly => 0x50,
        }
    }

    /// The protocol code (0, 1 or 0x50).
    #[verifier::when_used_as_spec(spec_to_u8)]
    pub fn to_u8(self) -> (r: u8)
        ensures
            r == self.spec_to_u8(),
    {
        match self {
            MscProtocol::CbiWithInterrupt => 0,
            MscProtocol::CbiNoInterrupt => 1,
            MscProtocol::BulkOnly => 0x50,
        }
    }
}

#[derive(Copy, Clone, PartialEq, Eq, Structural, Hash, Debug)]
pub enum CommandStatus {
    Passed,
    Failed,
    PhaseError,
}

impl CommandStatus {
    pub open spec fn spec_to_u8(self) -> u8 {
        match self {
            CommandStatus::Passed => 0,
            CommandStatus::Failed => 1,
            CommandStatus::PhaseError => 2,
        }
    }

    /// The `bCSWStatus` code (0, 1 or 2).
    #[verifier::when_used_as_spec(spec_to_u8)]
    pub fn to_u8(self) -> (r: u8)
        ensures
            r == self.spec_to_u8(),
    {
        match self {
            CommandStatus::Passed => 0,
            CommandStatus::Failed => 1,
            CommandStatus::PhaseError => 2,
        }
    }

    /// The status with code `b`, if there is one.
    pub open spec fn spec_from_u8(b: u8) -> Option<CommandStatus> {
        if b == 0 {
            Some(CommandStatus::Passed)
        } else if b == 1 {
            Some(CommandStatus::Failed)
        } else if b == 2 {
            Some(CommandStatus::PhaseError)
        } else {
            None
        }
    }
}

/// Command Block Wrapper (CBW, 31 bytes)
#[derive(Clone, Debug, PartialEq, Eq)]
pub struct CommandBlockWrapper {
    pub tag: u32,
    pub data_transfer_length: u32,
    /// Bit 7: 1 = In (device to host), 0 = Out (host to device)
    pub flags: u8,
    pub lun: u8,
    pub cb_length: u8,
    pub command: [u8; 16],
}

/// The fields of a command block wrapper, the command block as a sequence.
#[verifier::ext_equal]
pub struct CbwFields {
    pub tag: u32,
    pub data_transfer_length: u32,
    pub flags: u8,
    pub lun: u8,
    pub cb_length: u8,
    pub command: Seq<u8>,
}

impl View for CommandBlockWrapper {
    type V = CbwFields;

    open spec fn view(&self) -> CbwFields {
        CbwFields {
            tag: self.tag,
            data_transfer_length: self.data_transfer_length,
            flags: self.flags,
            lun: self.lun,
            cb_length: self.cb_length,
            command: self.command@,
        }
    }
}

/// Whether 31 bytes form a CBW: the signature is 'USBC', only bit 7 of the
/// flags, the low four bits of the LUN and the low five bits of the CDB length
/// are used, and the CDB length is 1 to 16.
pub open spec fn cbw_bytes_valid(s: Seq<u8>) -> bool {
    &&& le32(s, 0) == CBW_SIGNATURE
    &&& s[12] & 0x7F == 0
    &&& s[13] & 0xF0 == 0
    &&& s[14] & 0xE0 == 0
    &&& 1 <= (s[14] & 0x1F) <= 16
}

/// The CBW that 31 bytes encode, or `None` where they do not form one.
pub open spec fn spec_cbw_from_bytes(s: Seq<u8>) -> Option<CbwFields> {
    if cbw_bytes_valid(s) {
        Some(
            CbwFields {
                tag: le32(s, 4),
                data_transfer_length: le32(s, 8),
                flags: s[12],
                lun: s[13] & 0x0F,
                cb_length: s[14] & 0x1F,
                command: s.subrange(15, 31),
            },
        )
    } else {
        None
    }
}

/// The 31 bytes that encode a CBW (the LUN and CDB length masked to their fields).
pub open spec fn spec_cbw_to_bytes(c: CbwFields) -> Seq<u8> {
    le32_bytes(CBW_SIGNATURE) + le32_bytes(c.tag) + le32_bytes(c.data_transfer_length) + seq![
        c.flags,
        c.lun & 0x0F,
        c.cb_length & 0x1F,
    ] + c.command
}

/// Whether a CBW survives encoding unchanged: reserved flag bits clear, the LUN
/// below 16 and the CDB length 1 to 16.
pub open spec fn cbw_encodable(c: CbwFields) -> bool {
    &&& c.flags & 0x7F == 0
    &&& c.lun <= 15
    &&& 1 <= c.cb_length <= 16
    &&& c.command.len() == 16
}

impl CommandBlockWrapper {
    pub fn is_direction_in(&self) -> (r: bool)
        ensures
            r == (self.flags & 0x80 != 0),
    {
        (self.flags & 0x80) != 0
    }

    pub fn is_direction_out(&self) -> (r: bool)
        ensures
            r == (self.flags & 0x80 == 0),
    {
        (self.flags & 0x80) == 0
    }

    /// Parses a CBW; `None` where the bytes do not form one (see `cbw_bytes_valid`).
    pub fn from_bytes(bytes: &[u8; 31]) -> (r: Option<Self>)
        ensures
            match r {
                Some(c) => spec_cbw_from_bytes(bytes@) == Some(c@),
                None => spec_cbw_from_bytes(bytes@) is None,
            },
    {
        let sig = read_le_u32(bytes, 0);
        if sig != CBW_SIGNATURE {
            return None;
        }
        // BOT: direction is bit 7 only; LUN is lower 4 bits; CDB length is lower 5 bits.
        if (bytes[12] & 0x7F) != 0 || (bytes[13] & 0xF0) != 0 || (bytes[14] & 0xE0) != 0 {
            return None;
        }
        let cb_length = bytes[14] & 0x1F;
        if !(1 <= cb_length && cb_length <= 16) {
            return None;
        }
        let mut command = [0u8; 16];
        let mut i: usize = 0;
        while i < 16
            invariant
                i <= 16,
                forall|j: int| 0 <= j < i ==> command@[j] == bytes@[15 + j],
            decreases 16 - i,
        {
            command[i] = bytes[15 + i];
            i = i + 1;
        }
        assert(command@ =~= bytes@.subrange(15, 31));
        Some(
            CommandBlockWrapper {
                tag: read_le_u32(bytes, 4),
                data_transfer_length: read_le_u32(bytes, 8),
                flags: bytes[12],
                lun: bytes[13] & 0x0F,
                cb_length,
                command,
            },
        )
    }

    pub fn to_bytes(&self, bytes: &mut [u8; 31])
        ensures
            final(bytes)@ == spec_cbw_to_bytes(self@),
    {
        write_le_u32(bytes, 0, CBW_SIGNATURE);
        write_le_u32(bytes, 4, self.tag);
        write_le_u32(bytes, 8, self.data_transfer_length);
        bytes[12] = self.flags;
        bytes[13] = self.lun & 0x0F;
        bytes[14] = self.cb_length & 0x1F;
        let mut i: usize = 0;
        while i < 16
            invariant
                i <= 16,
                bytes@.len() == 31,
                bytes@.subrange(0, 15) == spec_cbw_to_bytes(self@).subrange(0, 15),
                forall|j: int| 0 <= j < i ==> bytes@[15 + j] == self.command@[j],
            decreases 16 - i,
        {
            bytes[15 + i] = self.command[i];
            i = i + 1;
            assert(bytes@.subrange(0, 15) =~= spec_cbw_to_bytes(self@).subrange(0, 15));
        }
        let ghost t = spec_cbw_to_bytes(self@);
        assert(t.len() == 31);
        assert forall|j: int| 0 <= j < 31 implies bytes@[j] == t[j] by {
            if j < 15 {
                assert(bytes@[j] == bytes@.subrange(0, 15)[j]);
                assert(t[j] == t.subrange(0, 15)[j]);
            } else {
                assert(bytes@[15 + (j - 15)] == self.command@[j - 15]);
            }
        }
        assert(bytes@ =~= t);
    }
}

/// Command Status Wrapper (CSW, 13 bytes)
#[derive(Copy, Clone, Debug, PartialEq, Eq, Structural)]
pub struct CommandStatusWrapper {
    pub tag: u32,
    pub data_residue: u32,
    pub status: CommandStatus,
}

/// The 13 bytes that encode a CSW.
pub open spec fn spec_csw_to_bytes(c: CommandStatusWrapper) -> Seq<u8> {
    le32_bytes(CSW_SIGNATURE) + le32_bytes(c.tag) + le32_bytes(c.data_residue) + seq![
        c.status.spec_to_u8(),
    ]
}

/// The CSW that 13 bytes encode: signature 'USBS' and a known status code.
pub open spec fn spec_csw_from_bytes(s: Seq<u8>) -> Option<CommandStatusWrapper> {
    if le32(s, 0) != CSW_SIGNATURE {
        None
    } else {
        match CommandStatus::spec_from_u8(s[12]) {
            Some(status) => Some(
                CommandStatusWrapper { tag: le32(s, 4), data_residue: le32(s, 8), status },
            ),
            None => None,
        }
    }
}

impl CommandStatusWrapper {
    pub fn to_bytes(&self, bytes: &mut [u8; 13])
        ensures
            final(bytes)@ == spec_csw_to_bytes(*self),
    {
        write_le_u32(bytes, 0, CSW_SIGNATURE);
        write_le_u32(bytes, 4, self.tag);
        write_le_u32(bytes, 8, self.data_residue);
        bytes[12] = self.status.to_u8();
        assert(bytes@ =~= spec_csw_to_bytes(*self));
    }

    pub fn from_bytes(bytes: &[u8; 13]) -> (r: Option<Self>)
        ensures
            r == spec_csw_from_bytes(bytes@),
    {
        let sig = read_le_u32(bytes, 0);
        if sig != CSW_SIGNATURE {
            return None;
        }
        let status = match bytes[12] {
            0 => CommandStatus::Passed,
            1 => CommandStatus::Failed,
            2 => CommandStatus::PhaseError,
            _ => return None,
        };
        Some(
            CommandStatusWrapper {
                tag: read_le_u32(bytes, 4),
                data_residue: read_le_u32(bytes, 8),
                status,
            },
        )
    }
}

/// A CBW whose reserved bits are clear decodes back from its encoding.
pub proof fn lemma_cbw_roundtrip(c: CbwFields)
    requires
        cbw_encodable(c),
    ensures
        spec_cbw_from_bytes(spec_cbw_to_bytes(c)) == Some(c),
{
    let s = spec_cbw_to_bytes(c);
    crate::codec::lemma_le32_bytes(CBW_SIGNATURE);
    assert(s.subrange(0, 4) =~= le32_bytes(CBW_SIGNATURE));
    assert(s.subrange(4, 8) =~= le32_bytes(c.tag));
    assert(s.subrange(8, 12) =~= le32_bytes(c.data_transfer_length));
    crate::codec::lemma_le32_bytes(c.tag);
    crate::codec::lemma_le32_bytes(c.data_transfer_length);
    let (f, l, n) = (c.flags, c.lun, c.cb_length);
    assert(f & 0x7F == 0 ==> f & 0x7F == 0);
    assert((l <= 15) ==> (l & 0x0F) & 0xF0 == 0 && (l & 0x0F) & 0x0F == l) by (bit_vector);
    assert((1 <= n <= 16) ==> (n & 0x1F) & 0xE0 == 0 && (n & 0x1F) & 0x1F == n) by (bit_vector);
    assert(s.subrange(15, 31) =~= c.command);
}

/// Bytes that form a CBW are encoded back unchanged by the CBW they decode to.
pub proof fn lemma_cbw_bytes_roundtrip(s: Seq<u8>)
    requires
        s.len() == 31,
        cbw_bytes_valid(s),
    ensures
        spec_cbw_to_bytes(spec_cbw_from_bytes(s)->0) == s,
{
    crate::codec::lemma_le32_of_bytes(s, 0);
    crate::codec::lemma_le32_of_bytes(s, 4);
    crate::codec::lemma_le32_of_bytes(s, 8);
    let (b13, b14) = (s[13], s[14]);
    assert(b13 & 0xF0 == 0 ==> b13 & 0x0F == b13) by (bit_vector);
    assert(b14 & 0xE0 == 0 ==> b14 & 0x1F == b14) by (bit_vector);
    assert(b13 & 0x0F & 0x0F == b13 & 0x0F) by (bit_vector);
    assert(b14 & 0x1F & 0x1F == b14 & 0x1F) by (bit_vector);
    assert(spec_cbw_to_bytes(spec_cbw_from_bytes(s)->0) =~= s);
}

/// A CSW decodes back from its encoding.
pub proof fn lemma_csw_roundtrip(c: CommandStatusWrapper)
    ensures
        spec_csw_from_bytes(spec_csw_to_bytes(c)) == Some(c),
{
    let s = spec_csw_to_bytes(c);
    crate::codec::lemma_le32_bytes(CSW_SIGNATURE);
    crate::codec::lemma_le32_bytes(c.tag);
    crate::codec::lemma_le32_bytes(c.data_residue);
    assert(s.subrange(0, 4) =~= le32_bytes(CSW_SIGNATURE));
    assert(s.subrange(4, 8) =~= le32_bytes(c.tag));
    assert(s.subrange(8, 12) =~= le32_bytes(c.data_residue));
}

/// Bytes that form a CSW are encoded back unchanged by the CSW they decode to.
pub proof fn lemma_csw_bytes_roundtrip(s: Seq<u8>)
    requires
        s.len() == 13,
        spec_csw_from_bytes(s) is Some,
    ensures
        spec_csw_to_bytes(spec_csw_from_bytes(s)->0) == s,
{
    crate::codec::lemma_le32_of_bytes(s, 0);
    crate::codec::lemma_le32_of_bytes(s, 4);
    crate::codec::lemma_le32_of_bytes(s, 8);
    assert(spec_csw_to_bytes(spec_csw_from_bytes(s)->0) =~= s);
}

/// SCSI Command Opcodes
#[derive(Copy, Clone, PartialEq, Eq, Structural, Hash, Debug)]
pub enum ScsiCommand {
    TestUnitReady,
    RequestSense,
    Inquiry,
    ModeSelect6,
    ModeSense6,
    StartStopUnit,
    PreventAllowMediumRemoval,
    ReadFormatCapacities,
    ReadCapacity10,
    Read10,
    Write10,
}

impl ScsiCommand {
    pub open spec fn spec_to_u8(self) -> u8 {
        match self {
            ScsiCommand::TestUnitReady => 0x00,
            ScsiCommand::RequestSense => 0x03,
            ScsiCommand::Inquiry => 0x12,
            ScsiCommand::ModeSelect6 => 0x15,
            ScsiCommand::ModeSense6 => 0x1A,
            ScsiCommand::StartStopUnit => 0x1B,
            ScsiCommand::PreventAllowMediumRemoval => 0x1E,
            ScsiCommand::ReadFormatCapacities => 0x23,
            ScsiCommand::ReadCapacity10 => 0x25,
            ScsiCommand::Read10 => 0x28,
            ScsiCommand::Write10 => 0x2A,
        }
    }

    /// The operation code of the command.
    #[verifier::when_used_as_spec(spec_to_u8)]
    pub fn to_u8(self) -> (r: u8)
        ensures
            r == self.spec_to_u8(),
    {
        match self {
            ScsiCommand::TestUnitReady => 0x00,
            ScsiCommand::RequestSense => 0x03,
            ScsiCommand::Inquiry => 0x12,
            ScsiCommand::ModeSelect6 => 0x15,
            ScsiCommand::ModeSense6 => 0x1A,
            ScsiCommand::StartStopUnit => 0x1B,
            ScsiCommand::PreventAllowMediumRemoval => 0x1E,
            ScsiCommand::ReadFormatCapacities => 0x23,
            ScsiCommand::ReadCapacity10 => 0x25,
            ScsiCommand::Read10 => 0x28,
            ScsiCommand::Write10 => 0x2A,
        }
    }

    /// The command with operation code `val`, if there is one.
    pub open spec fn spec_from_u8(val: u8) -> Option<ScsiCommand> {
        match val {
            0x00 => Some(ScsiCommand::TestUnitReady),
            0x03 => Some(ScsiCommand::RequestSense),
            0x12 => Some(ScsiCommand::Inquiry),
            0x15 => Some(ScsiCommand::ModeSelect6),
            0x1A => Some(ScsiCommand::ModeSense6),
            0x1B => Some(ScsiCommand::StartStopUnit),
            0x1E => Some(ScsiCommand::PreventAllowMediumRemoval),
            0x23 => Some(ScsiCommand::ReadFormatCapacities),
            0x25 => Some(ScsiCommand::ReadCapacity10),
            0x28 => Some(ScsiCommand::Read10),
            0x2A => Some(ScsiCommand::Write10),
            _ => None,
        }
    }
}

impl TryFrom<u8> for ScsiCommand {
    type Error = ();

    fn try_from(val: u8) -> (r: Result<Self, ()>) {
        match val {
            0x00 => Ok(ScsiCommand::TestUnitReady),
            0x03 => Ok(ScsiCommand::RequestSense),
            0x12 => Ok(ScsiCommand::Inquiry),
            0x15 => Ok(ScsiCommand::ModeSelect6),
            0x1A => Ok(ScsiCommand::ModeSense6),
            0x1B => Ok(ScsiCommand::StartStopUnit),
            0x1E => Ok(ScsiCommand::PreventAllowMediumRemoval),
            0x23 => Ok(ScsiCommand::ReadFormatCapacities),
            0x25 => Ok(ScsiCommand::ReadCapacity10),
            0x28 => Ok(ScsiCommand::Read10),
            0x2A => Ok(ScsiCommand::Write10),
            _ => Err(()),
        }
    }
}

impl vstd::std_specs::convert::TryFromSpecImpl<u8> for ScsiCommand {
    open spec fn obeys_try_from_spec() -> bool {
        true
    }

    open spec fn try_from_spec(v: u8) -> Result<Self, ()> {
        match ScsiCommand::spec_from_u8(v) {
            Some(c) => Ok(c),
            None => Err(()),
        }
    }
}

/// SCSI Sense Keys
#[derive(Copy, Clone, PartialEq, Eq, Structural, Hash, Debug)]
pub enum ScsiSenseKey {
    NoSense,
    RecoveredError,
    NotReady,
    MediumError,
    HardwareError,
    IllegalRequest,
    UnitAttention,
    DataProtect,
    AbortedCommand,
}

impl ScsiSenseKey {
    pub open spec fn spec_to_u8(self) -> u8 {
        match self {
            ScsiSenseKey::NoSense => 0x00,
            ScsiSenseKey::RecoveredError => 0x01,
            ScsiSenseKey::NotReady => 0x02,
            ScsiSenseKey::MediumError => 0x03,
            ScsiSenseKey::HardwareError => 0x04,
            ScsiSenseKey::IllegalRequest => 0x05,
            ScsiSenseKey::UnitAttention => 0x06,
            ScsiSenseKey::DataProtect => 0x07,
            ScsiSenseKey::AbortedCommand => 0x0B,
        }
    }

    /// The sense key code.
    #[verifier::when_used_as_spec(spec_to_u8)]
    pub fn to_u8(self) -> (r: u8)
        ensures
            r == self.spec_to_u8(),
    {
        match self {
            ScsiSenseKey::NoSense => 0x00,
            ScsiSenseKey::RecoveredError => 0x01,
            ScsiSenseKey::NotReady => 0x02,
            ScsiSenseKey::MediumError => 0x03,
            ScsiSenseKey::HardwareError => 0x04,
            ScsiSenseKey::IllegalRequest => 0x05,
            ScsiSenseKey::UnitAttention => 0x06,
            ScsiSenseKey::DataProtect => 0x07,
            ScsiSenseKey::AbortedCommand => 0x0B,
        }
    }
}


/// The mass storage subclass codes: each encodes to its code.
pub proof fn lemma_msc_subclass_codes()
    ensures
        MscSubclass::Rbc.spec_to_u8() == 1,
        MscSubclass::SffMmc.spec_to_u8() == 2,
        MscSubclass::Qic.spec_to_u8() == 3,
        MscSubclass::Ufi.spec_to_u8() == 4,
        MscSubclass::Sff.spec_to_u8() == 5,
        MscSubclass::Scsi.spec_to_u8() == 6,
{
}

/// The mass storage transport protocol codes: each encodes to its code.
pub proof fn lemma_msc_protocol_codes()
    ensures
        MscProtocol::CbiWithInterrupt.spec_to_u8() == 0,
        MscProtocol::CbiNoInterrupt.spec_to_u8() == 1,
        MscProtocol::BulkOnly.spec_to_u8() == 0x50,
{
}

/// The CSW status codes (BOT 1.0 Table 5.3): each encodes to its code, each
/// code decodes to it, and a byte that decodes at all is the code of what it
/// decodes to.
pub proof fn lemma_command_status_codes(b: u8)
    ensures
        CommandStatus::Passed.spec_to_u8() == 0,
        CommandStatus::Failed.spec_to_u8() == 1,
        CommandStatus::PhaseError.spec_to_u8() == 2,
        CommandStatus::spec_from_u8(0) == Some(CommandStatus::Passed),
        CommandStatus::spec_from_u8(1) == Some(CommandStatus::Failed),
        CommandStatus::spec_from_u8(2) == Some(CommandStatus::PhaseError),
        CommandStatus::spec_from_u8(b) matches Some(r) ==> r.spec_to_u8() == b,
{
}

/// The SCSI operation codes (SPC/SBC): each encodes to its code, each code
/// decodes to it, and a byte that decodes at all is the code of what it decodes
/// to.
pub proof fn lemma_scsi_command_codes(b: u8)
    ensures
        ScsiCommand::TestUnitReady.spec_to_u8() == 0x00,
        ScsiCommand::RequestSense.spec_to_u8() == 0x03,
        ScsiCommand::Inquiry.spec_to_u8() == 0x12,
        ScsiCommand::ModeSelect6.spec_to_u8() == 0x15,
        ScsiCommand::ModeSense6.spec_to_u8() == 0x1A,
        ScsiCommand::StartStopUnit.spec_to_u8() == 0x1B,
        ScsiCommand::PreventAllowMediumRemoval.spec_to_u8() == 0x1E,
        ScsiCommand::ReadFormatCapacities.spec_to_u8() == 0x23,
        ScsiCommand::ReadCapacity10.spec_to_u8() == 0x25,
        ScsiCommand::Read10.spec_to_u8() == 0x28,
        ScsiCommand::Write10.spec_to_u8() == 0x2A,
        ScsiCommand::spec_from_u8(0x00) == Some(ScsiCommand::TestUnitReady),
        ScsiCommand::spec_from_u8(0x03) == Some(ScsiCommand::RequestSense),
        ScsiCommand::spec_from_u8(0x12) == Some(ScsiCommand::Inquiry),
        ScsiCommand::spec_from_u8(0x15) == Some(ScsiCommand::ModeSelect6),
        ScsiCommand::spec_from_u8(0x1A) == Some(ScsiCommand::ModeSense6),
        ScsiCommand::spec_from_u8(0x1B) == Some(ScsiCommand::StartStopUnit),
        ScsiCommand::spec_from_u8(0x1E) == Some(ScsiCommand::PreventAllowMediumRemoval),
        ScsiCommand::spec_from_u8(0x23) == Some(ScsiCommand::ReadFormatCapacities),
        ScsiCommand::spec_from_u8(0x25) == Some(ScsiCommand::ReadCapacity10),
        ScsiCommand::spec_from_u8(0x28) == Some(ScsiCommand::Read10),
        ScsiCommand::spec_from_u8(0x2A) == Some(ScsiCommand::Write10),
        ScsiCommand::spec_from_u8(b) matches Some(r) ==> r.spec_to_u8() == b,
{
}

/// The SCSI sense key codes (SPC): each encodes to its code.
pub proof fn lemma_scsi_sense_key_codes()
    ensures
        ScsiSenseKey::NoSense.spec_to_u8() == 0x00,
        ScsiSenseKey::RecoveredError.spec_to_u8() == 0x01,
        ScsiSenseKey::NotReady.spec_to_u8() == 0x02,
        ScsiSenseKey::MediumError.spec_to_u8() == 0x03,
        ScsiSenseKey::HardwareError.spec_to_u8() == 0x04,
        ScsiSenseKey::IllegalRequest.spec_to_u8() == 0x05,
        ScsiSenseKey::UnitAttention.spec_to_u8() == 0x06,
        ScsiSenseKey::DataProtect.spec_to_u8() == 0x07,
        ScsiSenseKey::AbortedCommand.spec_to_u8() == 0x0B,
{
}


/// The fields of a CBW sit at the offsets of BOT 1.0 Table 5.1, 32-bit fields
/// little-endian: the signature 'USBC' (bytes 0x55 0x53 0x42 0x43) at 0..4,
/// dCBWTag at 4, dCBWDataTransferLength at 8, bmCBWFlags at 12, bCBWLUN in the
/// low four bits of 13, bCBWCBLength in the low five bits of 14 and the command
/// block at 15..31. Decoding succeeds exactly when the signature is there, only
/// bit 7 of the flags may be set, the LUN byte is below 16 and the length byte
/// is 1 to 16, and then reads each field there; encoding writes each there.
pub proof fn lemma_cbw_layout(s: Seq<u8>, c: CbwFields)
    requires
        s.len() == 31,
        c.command.len() == 16,
    ensures
        spec_cbw_from_bytes(s) is Some <==> (s[0] == 0x55 && s[1] == 0x53 && s[2] == 0x42 && s[3]
            == 0x43 && (s[12] == 0 || s[12] == 0x80) && s[13] < 16 && 1 <= s[14] <= 16),
        spec_cbw_from_bytes(s) matches Some(p) ==> p.tag == s[4] + 256 * s[5] + 65536 * s[6]
            + 16777216 * s[7] && p.data_transfer_length == s[8] + 256 * s[9] + 65536 * s[10]
            + 16777216 * s[11] && p.flags == s[12] && p.lun == s[13] && p.cb_length == s[14]
            && p.command == s.subrange(15, 31),
        spec_cbw_to_bytes(c).len() == 31,
        spec_cbw_to_bytes(c).subrange(0, 4) == seq![0x55u8, 0x53u8, 0x42u8, 0x43u8],
        le32(spec_cbw_to_bytes(c), 4) == c.tag,
        le32(spec_cbw_to_bytes(c), 8) == c.data_transfer_length,
        spec_cbw_to_bytes(c)[12] == c.flags,
        spec_cbw_to_bytes(c)[13] == c.lun % 16,
        spec_cbw_to_bytes(c)[14] == c.cb_length % 32,
        spec_cbw_to_bytes(c).subrange(15, 31) == c.command,
{
    let t = spec_cbw_to_bytes(c);
    crate::codec::lemma_le32_split(s[0], s[1], s[2], s[3]);
    crate::codec::lemma_le32_bytes(c.tag);
    crate::codec::lemma_le32_bytes(c.data_transfer_length);
    assert(t.subrange(4, 8) =~= le32_bytes(c.tag));
    assert(t.subrange(8, 12) =~= le32_bytes(c.data_transfer_length));
    assert(t.subrange(0, 4) =~= seq![0x55u8, 0x53u8, 0x42u8, 0x43u8]);
    assert(t.subrange(15, 31) =~= c.command);
    let (b12, b13, b14, l, n) = (s[12], s[13], s[14], c.lun, c.cb_length);
    assert((b12 & 0x7F == 0) == (b12 == 0 || b12 == 0x80)) by (bit_vector);
    assert((b13 & 0xF0 == 0) == (b13 < 16)) by (bit_vector);
    assert(b13 < 16 ==> b13 & 0x0F == b13) by (bit_vector);
    assert((b14 & 0xE0 == 0 && 1 <= (b14 & 0x1F) <= 16) == (1 <= b14 <= 16)) by (bit_vector);
    assert(1 <= b14 <= 16 ==> b14 & 0x1F == b14) by (bit_vector);
    assert(l & 0x0F == l % 16) by (bit_vector);
    assert(n & 0x1F == n % 32) by (bit_vector);
}

/// The fields of a CSW sit at the offsets of BOT 1.0 Table 5.2, 32-bit fields
/// little-endian: the signature 'USBS' (bytes 0x55 0x53 0x42 0x53) at 0..4,
/// dCSWTag at 4, dCSWDataResidue at 8 and bCSWStatus at 12. Decoding succeeds
/// exactly when the signature is there and the status byte is 0, 1 or 2, and
/// then reads each field there; encoding writes each there.
pub proof fn lemma_csw_layout(s: Seq<u8>, c: CommandStatusWrapper)
    requires
        s.len() == 13,
    ensures
        spec_csw_from_bytes(s) is Some <==> (s[0] == 0x55 && s[1] == 0x53 && s[2] == 0x42 && s[3]
            == 0x53 && s[12] <= 2),
        spec_csw_from_bytes(s) matches Some(p) ==> p.tag == s[4] + 256 * s[5] + 65536 * s[6]
            + 16777216 * s[7] && p.data_residue == s[8] + 256 * s[9] + 65536 * s[10] + 16777216
            * s[11] && p.status.spec_to_u8() == s[12],
        spec_csw_to_bytes(c).len() == 13,
        spec_csw_to_bytes(c).subrange(0, 4) == seq![0x55u8, 0x53u8, 0x42u8, 0x53u8],
        le32(spec_csw_to_bytes(c), 4) == c.tag,
        le32(spec_csw_to_bytes(c), 8) == c.data_residue,
        spec_csw_to_bytes(c)[12] == c.status.spec_to_u8(),
{
    let t = spec_csw_to_bytes(c);
    crate::codec::lemma_le32_split(s[0], s[1], s[2], s[3]);
    crate::codec::lemma_le32_bytes(c.tag);
    crate::codec::lemma_le32_bytes(c.data_residue);
    assert(t.subrange(4, 8) =~= le32_bytes(c.tag));
    assert(t.subrange(8, 12) =~= le32_bytes(c.data_residue));
    assert(t.subrange(0, 4) =~= seq![0x55u8, 0x53u8, 0x42u8, 0x53u8]);
}

} // verus!
