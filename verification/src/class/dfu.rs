//! USB Device Firmware Upgrade (DFU 1.1) definitions.
use crate::codec::{le16, read_le_u16, write_le_u16};
use vstd::prelude::*;

verus! {

#[derive(Copy, Clone, PartialEq, Eq, Structural, Hash, Debug)]
pub enum DfuRequest {
    Detach,
    Dnload,
    Upload,
    GetStatus,
    ClrStatus,
    GetState,
    Abort,
}

impl DfuRequest {
    pub open spec fn spec_to_u8(self) -> u8 {
        match self {
            DfuRequest::Detach => 0,
            DfuRequest::Dnload => 1,
            DfuRequest::Upload => 2,
            DfuRequest::GetStatus => 3,
            DfuRequest::ClrStatus => 4,
            DfuRequest::GetState => 5,
            DfuRequest::Abort => 6,
        }
    }

    /// The `bRequest` code of the class request (0 to 6).
    #[verifier::when_used_as_spec(spec_to_u8)]
    pub fn to_u8(self) -> (r: u8)
        ensures
            r == self.spec_to_u8(),
    {
        match self {
            DfuRequest::Detach => 0,
            DfuRequest::Dnload => 1,
            DfuRequest::Upload => 2,
            DfuRequest::GetStatus => 3,
            DfuRequest::ClrStatus => 4,
            DfuRequest::GetState => 5,
            DfuRequest::Abort => 6,
        }
    }

    /// The DFU class request with code `val`, if there is one.
    pub open spec fn spec_from_u8(val: u8) -> Option<DfuRequest> {
        match val {
            0 => Some(DfuRequest::Detach),
            1 => Some(DfuRequest::Dnload),
            2 => Some(DfuRequest::Upload),
            3 => Some(DfuRequest::GetStatus),
            4 => Some(DfuRequest::ClrStatus),
            5 => Some(DfuRequest::GetState),
            6 => Some(DfuRequest::Abort),
            _ => None,
        }
    }
}

impl TryFrom<u8> for DfuRequest {
    type Error = ();

    fn try_from(val: u8) -> (r: Result<Self, ()>) {
        match val {
            0 => Ok(DfuRequest::Detach),
            1 => Ok(DfuRequest::Dnload),
            2 => Ok(DfuRequest::Upload),
            3 => Ok(DfuRequest::GetStatus),
            4 => Ok(DfuRequest::ClrStatus),
            5 => Ok(DfuRequest::GetState),
            6 => Ok(DfuRequest::Abort),
            _ => Err(()),
        }
    }
}

impl vstd::std_specs::convert::TryFromSpecImpl<u8> for DfuRequest {
    open spec fn obeys_try_from_spec() -> bool {
        true
    }

    open spec fn try_from_spec(v: u8) -> Result<Self, ()> {
        match DfuRequest::spec_from_u8(v) {
            Some(r) => Ok(r),
            None => Err(()),
        }
    }
}

/// DFU Functional Descriptor (9 bytes)
#[derive(Copy, Clone, Debug, PartialEq, Eq, Structural)]
pub struct DfuFunctionalDescriptor {
    pub bm_attributes: u8,
    pub w_detach_time_out: u16,
    pub w_transfer_size: u16,
    pub bcd_dfu_version: u16,
}

impl DfuFunctionalDescriptor {
    pub const SIZE: usize = 9;

    /// The 9 bytes that encode the descriptor (length 9, type 0x21, then the
    /// fields, 16-bit ones little-endian).
    pub open spec fn spec_to_bytes(self) -> Seq<u8> {
        seq![
            9u8,
            0x21u8,
            self.bm_attributes,
            (self.w_detach_time_out % 256) as u8,
            (self.w_detach_time_out / 256) as u8,
            (self.w_transfer_size % 256) as u8,
            (self.w_transfer_size / 256) as u8,
            (self.bcd_dfu_version % 256) as u8,
            (self.bcd_dfu_version / 256) as u8,
        ]
    }

    /// The descriptor that 9 bytes encode: length 9 and type 0x21.
    pub open spec fn spec_from_bytes(s: Seq<u8>) -> Option<DfuFunctionalDescriptor> {
        if s[0] != 9 || s[1] != 0x21 {
            None
        } else {
            Some(
                DfuFunctionalDescriptor {
                    bm_attributes: s[2],
                    w_detach_time_out: le16(s, 3),
                    w_transfer_size: le16(s, 5),
                    bcd_dfu_version: le16(s, 7),
                },
            )
        }
    }

    pub fn to_bytes(&self, bytes: &mut [u8; 9])
        ensures
            final(bytes)@ == self.spec_to_bytes(),
    {
        bytes[0] = 9;
        bytes[1] = 0x21;
        bytes[2] = self.bm_attributes;
        write_le_u16(bytes, 3, self.w_detach_time_out);
        write_le_u16(bytes, 5, self.w_transfer_size);
        write_le_u16(bytes, 7, self.bcd_dfu_version);
        assert(bytes@ =~= self.spec_to_bytes());
    }

    pub fn from_bytes(bytes: &[u8; 9]) -> (r: Option<Self>)
        ensures
            r == Self::spec_from_bytes(bytes@),
    {
        if bytes[0] != 9 || bytes[1] != 0x21 {
            return None;
        }
        Some(
            DfuFunctionalDescriptor {
                bm_attributes: bytes[2],
                w_detach_time_out: read_le_u16(bytes, 3),
                w_transfer_size: read_le_u16(bytes, 5),
                bcd_dfu_version: read_le_u16(bytes, 7),
            },
        )
    }
}

/// A DFU functional descriptor decodes back from its encoding, and 9 bytes
/// that decode to one are its encoding.
pub proof fn lemma_dfu_descriptor_roundtrip(d: DfuFunctionalDescriptor, s: Seq<u8>)
    requires
        s.len() == 9,
    ensures
        DfuFunctionalDescriptor::spec_from_bytes(d.spec_to_bytes()) == Some(d),
        DfuFunctionalDescriptor::spec_from_bytes(s) matches Some(e) ==> e.spec_to_bytes() == s,
{
    if let Some(e) = DfuFunctionalDescriptor::spec_from_bytes(s) {
        assert(e.spec_to_bytes() =~= s);
    }
}


/// The DFU class request codes (DFU 1.1 Table 3.2): each encodes to its code,
/// each code decodes to it, and a byte that decodes at all is the code of what
/// it decodes to.
pub proof fn lemma_dfu_request_codes(b: u8)
    ensures
        DfuRequest::Detach.spec_to_u8() == 0,
        DfuRequest::Dnload.spec_to_u8() == 1,
        DfuRequest::Upload.spec_to_u8() == 2,
        DfuRequest::GetStatus.spec_to_u8() == 3,
        DfuRequest::ClrStatus.spec_to_u8() == 4,
        DfuRequest::GetState.spec_to_u8() == 5,
        DfuRequest::Abort.spec_to_u8() == 6,
        DfuRequest::spec_from_u8(0) == Some(DfuRequest::Detach),
        DfuRequest::spec_from_u8(1) == Some(DfuRequest::Dnload),
        DfuRequest::spec_from_u8(2) == Some(DfuRequest::Upload),
        DfuRequest::spec_from_u8(3) == Some(DfuRequest::GetStatus),
        DfuRequest::spec_from_u8(4) == Some(DfuRequest::ClrStatus),
        DfuRequest::spec_from_u8(5) == Some(DfuRequest::GetState),
        DfuRequest::spec_from_u8(6) == Some(DfuRequest::Abort),
        DfuRequest::spec_from_u8(b) matches Some(r) ==> r.spec_to_u8() == b,
{
}


/// The fields of a DFU functional descriptor sit at the offsets of DFU 1.1
/// Table 4.2: bLength 9 and bDescriptorType 0x21 at bytes 0 and 1,
/// bmAttributes at 2, then wDetachTimeOut, wTransferSize and bcdDFUVersion
/// little-endian at 3, 5 and 7. Decoding reads them there and succeeds exactly
/// when the first two bytes are 9 and 0x21; encoding writes them there.
pub proof fn lemma_dfu_descriptor_layout(s: Seq<u8>, d: DfuFunctionalDescriptor)
    requires
        s.len() == 9,
    ensures
        DfuFunctionalDescriptor::spec_from_bytes(s) is Some <==> (s[0] == 9 && s[1] == 0x21),
        DfuFunctionalDescriptor::spec_from_bytes(s) matches Some(p) ==> p.bm_attributes == s[2]
            && p.w_detach_time_out == s[3] + 256 * s[4] && p.w_transfer_size == s[5] + 256 * s[6]
            && p.bcd_dfu_version == s[7] + 256 * s[8],
        d.spec_to_bytes().len() == 9,
        d.spec_to_bytes()[0] == 9 && d.spec_to_bytes()[1] == 0x21,
        d.spec_to_bytes()[2] == d.bm_attributes,
        d.spec_to_bytes()[3] + 256 * d.spec_to_bytes()[4] == d.w_detach_time_out,
        d.spec_to_bytes()[5] + 256 * d.spec_to_bytes()[6] == d.w_transfer_size,
        d.spec_to_bytes()[7] + 256 * d.spec_to_bytes()[8] == d.bcd_dfu_version,
{
}

} // verus!
