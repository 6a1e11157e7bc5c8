//! USB Communication Device Class (CDC) definitions.
use crate::codec::{le32, le32_bytes, read_le_u32, write_le_u32};
use vstd::prelude::*;

verus! {

#[derive(Copy, Clone, PartialEq, Eq, Structural, Hash, Debug)]
pub enum CdcSubclass {
    DirectLineControlModel,
    AbstractControlModel,
    TelephoneControlModel,
    MultiChannelControlModel,
    CapiControlModel,
    EthernetNetworkingControlModel,
    AtmNetworkingControlModel,
    NetworkControlModel,
}

impl CdcSubclass {
    pub open spec fn spec_to_u8(self) -> u8 {
        match self {
            CdcSubclass::DirectLineControlModel => 0x01,
            CdcSubclass::AbstractControlModel => 0x02,
            CdcSubclass::TelephoneControlModel => 0x03,
            CdcSubclass::MultiChannelControlModel => 0x04,
            CdcSubclass::CapiControlModel => 0x05,
            CdcSubclass::EthernetNetworkingControlModel => 0x06,
            CdcSubclass::AtmNetworkingControlModel => 0x07,
            CdcSubclass::NetworkControlModel => 0x0D,
        }
    }

    /// The subclass code.
    #[verifier::when_used_as_spec(spec_to_u8)]
    pub fn to_u8(self) -> (r: u8)
        ensures
            r == self.spec_to_u8(),
    {
        match self {
            CdcSubclass::DirectLineControlModel => 0x01,
            CdcSubclass::AbstractControlModel => 0x02,
            CdcSubclass::TelephoneControlModel => 0x03,
            CdcSubclass::MultiChannelControlModel => 0x04,
            CdcSubclass::CapiControlModel => 0x05,
            CdcSubclass::EthernetNetworkingControlModel => 0x06,
            CdcSubclass::AtmNetworkingControlModel => 0x07,
            CdcSubclass::NetworkControlModel => 0x0D,
        }
    }
}

#[derive(Copy, Clone, PartialEq, Eq, Structural, Hash, Debug)]
pub enum CdcRequest {
    SetLineCoding,
    GetLineCoding,
    SetControlLineState,
    SendBreak,
}

impl CdcRequest {
    pub open spec fn spec_to_u8(self) -> u8 {
        match self {
            CdcRequest::SetLineCoding => 0x20,
            CdcRequest::GetLineCoding => 0x21,
            CdcRequest::SetControlLineState => 0x22,
            CdcRequest::SendBreak => 0x23,
        }
    }

    /// The `bRequest` code of the class request.
    #[verifier::when_used_as_spec(spec_to_u8)]
    pub fn to_u8(self) -> (r: u8)
        ensures
            r == self.spec_to_u8(),
    {
        match self {
            CdcRequest::SetLineCoding => 0x20,
            CdcRequest::GetLineCoding => 0x21,
            CdcRequest::SetControlLineState => 0x22,
            CdcRequest::SendBreak => 0x23,
        }
    }

    /// The CDC class request with code `val`, if there is one.
    pub open spec fn spec_from_u8(val: u8) -> Option<CdcRequest> {
        match val {
            0x20 => Some(CdcRequest::SetLineCoding),
            0x21 => Some(CdcRequest::GetLineCoding),
            0x22 => Some(CdcRequest::SetControlLineState),
            0x23 => Some(CdcRequest::SendBreak),
            _ => None,
        }
    }
}

impl TryFrom<u8> for CdcRequest {
    type Error = ();

    fn try_from(val: u8) -> (r: Result<Self, ()>) {
        match val {
            0x20 => Ok(CdcRequest::SetLineCoding),
            0x21 => Ok(CdcRequest::GetLineCoding),
            0x22 => Ok(CdcRequest::SetControlLineState),
            0x23 => Ok(CdcRequest::SendBreak),
            _ => Err(()),
        }
    }
}

impl vstd::std_specs::convert::TryFromSpecImpl<u8> for CdcRequest {
    open spec fn obeys_try_from_spec() -> bool {
        true
    }

    open spec fn try_from_spec(v: u8) -> Result<Self, ()> {
        match CdcRequest::spec_from_u8(v) {
            Some(r) => Ok(r),
            None => Err(()),
        }
    }
}

/// CDC ACM Line Coding (7 bytes)
#[derive(Copy, Clone, Debug, PartialEq, Eq, Structural)]
pub struct LineCoding {
    pub baud_rate: u32,
    pub stop_bits: u8,
    pub parity: u8,
    pub data_bits: u8,
}

impl LineCoding {
    pub const SIZE: usize = 7;

    /// The 7 bytes of the line coding: the baud rate little-endian, then stop
    /// bits, parity and data bits.
    pub open spec fn spec_to_bytes(self) -> Seq<u8> {
        le32_bytes(self.baud_rate) + seq![self.stop_bits, self.parity, self.data_bits]
    }

    /// The line coding that 7 bytes encode.
    pub open spec fn spec_from_bytes(s: Seq<u8>) -> LineCoding {
        LineCoding { baud_rate: le32(s, 0), stop_bits: s[4], parity: s[5], data_bits: s[6] }
    }

    pub fn to_bytes(&self, bytes: &mut [u8; 7])
        ensures
            final(bytes)@ == self.spec_to_bytes(),
    {
        write_le_u32(bytes, 0, self.baud_rate);
        bytes[4] = self.stop_bits;
        bytes[5] = self.parity;
        bytes[6] = self.data_bits;
        assert(bytes@ =~= self.spec_to_bytes());
    }

    pub fn from_bytes(bytes: &[u8; 7]) -> (r: Self)
        ensures
            r == Self::spec_from_bytes(bytes@),
    {
        LineCoding {
            baud_rate: read_le_u32(bytes, 0),
            stop_bits: bytes[4],
            parity: bytes[5],
            data_bits: bytes[6],
        }
    }
}

impl Default for LineCoding {
    /// 115200 baud, 1 stop bit, no parity, 8 data bits.
    fn default() -> (r: Self)
        ensures
            r == (LineCoding { baud_rate: 115200, stop_bits: 0, parity: 0, data_bits: 8 }),
    {
        LineCoding { baud_rate: 115200, stop_bits: 0, parity: 0, data_bits: 8 }
    }
}

/// A line coding decodes back from its encoding, and 7 bytes are the encoding
/// of the line coding they decode to.
pub proof fn lemma_line_coding_roundtrip(c: LineCoding, s: Seq<u8>)
    requires
        s.len() == 7,
    ensures
        LineCoding::spec_from_bytes(c.spec_to_bytes()) == c,
        LineCoding::spec_from_bytes(s).spec_to_bytes() == s,
{
    crate::codec::lemma_le32_bytes(c.baud_rate);
    assert(c.spec_to_bytes().subrange(0, 4) =~= le32_bytes(c.baud_rate));
    crate::codec::lemma_le32_of_bytes(s, 0);
    assert(LineCoding::spec_from_bytes(s).spec_to_bytes() =~= s);
}


/// The CDC subclass codes (CDC 1.2 Table 4): each encodes to its code.
pub proof fn lemma_cdc_subclass_codes()
    ensures
        CdcSubclass::DirectLineControlModel.spec_to_u8() == 0x01,
        CdcSubclass::AbstractControlModel.spec_to_u8() == 0x02,
        CdcSubclass::TelephoneControlModel.spec_to_u8() == 0x03,
        CdcSubclass::MultiChannelControlModel.spec_to_u8() == 0x04,
        CdcSubclass::CapiControlModel.spec_to_u8() == 0x05,
        CdcSubclass::EthernetNetworkingControlModel.spec_to_u8() == 0x06,
        CdcSubclass::AtmNetworkingControlModel.spec_to_u8() == 0x07,
        CdcSubclass::NetworkControlModel.spec_to_u8() == 0x0D,
{
}

/// The CDC class request codes (CDC PSTN: SET_LINE_CODING 0x20,
/// GET_LINE_CODING 0x21, SET_CONTROL_LINE_STATE 0x22, SEND_BREAK 0x23): each
/// encodes to its code, each code decodes to it, and a byte that decodes at all
/// is the code of what it decodes to.
pub proof fn lemma_cdc_request_codes(b: u8)
    ensures
        CdcRequest::SetLineCoding.spec_to_u8() == 0x20,
        CdcRequest::GetLineCoding.spec_to_u8() == 0x21,
        CdcRequest::SetControlLineState.spec_to_u8() == 0x22,
        CdcRequest::SendBreak.spec_to_u8() == 0x23,
        CdcRequest::spec_from_u8(0x20) == Some(CdcRequest::SetLineCoding),
        CdcRequest::spec_from_u8(0x21) == Some(CdcRequest::GetLineCoding),
        CdcRequest::spec_from_u8(0x22) == Some(CdcRequest::SetControlLineState),
        CdcRequest::spec_from_u8(0x23) == Some(CdcRequest::SendBreak),
        CdcRequest::spec_from_u8(b) matches Some(r) ==> r.spec_to_u8() == b,
{
}


/// The fields of a line coding sit at the offsets of CDC PSTN Table 17:
/// dwDTERate little-endian at bytes 0..4, bCharFormat at 4, bParityType at 5
/// and bDataBits at 6, both when decoding and when encoding.
pub proof fn lemma_line_coding_layout(s: Seq<u8>, c: LineCoding)
    requires
        s.len() == 7,
    ensures
        LineCoding::spec_from_bytes(s).baud_rate == s[0] + 256 * s[1] + 65536 * s[2] + 16777216
            * s[3],
        LineCoding::spec_from_bytes(s).stop_bits == s[4],
        LineCoding::spec_from_bytes(s).parity == s[5],
        LineCoding::spec_from_bytes(s).data_bits == s[6],
        c.spec_to_bytes().len() == 7,
        c.spec_to_bytes()[0] + 256 * c.spec_to_bytes()[1] + 65536 * c.spec_to_bytes()[2]
            + 16777216 * c.spec_to_bytes()[3] == c.baud_rate,
        c.spec_to_bytes()[4] == c.stop_bits && c.spec_to_bytes()[5] == c.parity
            && c.spec_to_bytes()[6] == c.data_bits,
{
    crate::codec::lemma_le32_bytes(c.baud_rate);
    let e = c.spec_to_bytes();
    assert(e[0] == le32_bytes(c.baud_rate)[0] && e[1] == le32_bytes(c.baud_rate)[1] && e[2]
        == le32_bytes(c.baud_rate)[2] && e[3] == le32_bytes(c.baud_rate)[3]);
    crate::codec::lemma_le32_of_bytes(s, 0);
}

} // verus!
