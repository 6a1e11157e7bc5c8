//! USB Control Transfer Setup Packet and Standard Requests.
use crate::codec::{le16, put_le16, read_le_u16, write_le_u16};
use crate::types::{dir_of_bit7, Direction};
use vstd::prelude::*;

verus! {

/// Request Type: Standard, Class, Vendor, or Reserved.
#[derive(Copy, Clone, PartialEq, Eq, Structural, Hash, Debug)]
pub enum RequestType {
    Standard,
    Class,
    Vendor,
    Reserved,
}

impl RequestType {
    pub open spec fn spec_to_u8(self) -> u8 {
        match self {
            RequestType::Standard => 0,
            RequestType::Class => 1,
            RequestType::Vendor => 2,
            RequestType::Reserved => 3,
        }
    }

    /// The two-bit code of the request type (0 to 3).
    #[verifier::when_used_as_spec(spec_to_u8)]
    pub fn to_u8(self) -> (r: u8)
        ensures
            r == self.spec_to_u8(),
    {
        match self {
            RequestType::Standard => 0,
            RequestType::Class => 1,
            RequestType::Vendor => 2,
            RequestType::Reserved => 3,
        }
    }
}

/// Request Recipient: Device, Interface, Endpoint, or Other.
#[derive(Copy, Clone, PartialEq, Eq, Structural, Hash, Debug)]
pub enum Recipient {
    Device,
    Interface,
    Endpoint,
    Other,
}

impl Recipient {
    pub open spec fn spec_to_u8(self) -> u8 {
        match self {
            Recipient::Device => 0,
            Recipient::Interface => 1,
            Recipient::Endpoint => 2,
            Recipient::Other => 3,
        }
    }

    /// The code of the recipient (0 to 3).
    #[verifier::when_used_as_spec(spec_to_u8)]
    pub fn to_u8(self) -> (r: u8)
        ensures
            r == self.spec_to_u8(),
    {
        match self {
            Recipient::Device => 0,
            Recipient::Interface => 1,
            Recipient::Endpoint => 2,
            Recipient::Other => 3,
        }
    }
}

/// USB Standard Requests (USB 2.0 Spec Table 9-4)
#[derive(Copy, Clone, PartialEq, Eq, Structural, Hash, Debug)]
pub enum StandardRequest {
    GetStatus,
    ClearFeature,
    SetFeature,
    SetAddress,
    GetDescriptor,
    SetDescriptor,
    GetConfiguration,
    SetConfiguration,
    GetInterface,
    SetInterface,
    SynchFrame,
}

impl StandardRequest {
    pub open spec fn spec_to_u8(self) -> u8 {
        match self {
            StandardRequest::GetStatus => 0,
            StandardRequest::ClearFeature => 1,
            StandardRequest::SetFeature => 3,
            StandardRequest::SetAddress => 5,
            StandardRequest::GetDescriptor => 6,
            StandardRequest::SetDescriptor => 7,
            StandardRequest::GetConfiguration => 8,
            StandardRequest::SetConfiguration => 9,
            StandardRequest::GetInterface => 10,
            StandardRequest::SetInterface => 11,
            StandardRequest::SynchFrame => 12,
        }
    }

    /// The `bRequest` code of the request.
    #[verifier::when_used_as_spec(spec_to_u8)]
    pub fn to_u8(self) -> (r: u8)
        ensures
            r == self.spec_to_u8(),
    {
        match self {
            StandardRequest::GetStatus => 0,
            StandardRequest::ClearFeature => 1,
            StandardRequest::SetFeature => 3,
            StandardRequest::SetAddress => 5,
            StandardRequest::GetDescriptor => 6,
            StandardRequest::SetDescriptor => 7,
            StandardRequest::GetConfiguration => 8,
            StandardRequest::SetConfiguration => 9,
            StandardRequest::GetInterface => 10,
            StandardRequest::SetInterface => 11,
            StandardRequest::SynchFrame => 12,
        }
    }

    /// The standard request with code `val`, if there is one.
    pub open spec fn spec_from_u8(val: u8) -> Option<StandardRequest> {
        match val {
            0 => Some(StandardRequest::GetStatus),
            1 => Some(StandardRequest::ClearFeature),
            3 => Some(StandardRequest::SetFeature),
            5 => Some(StandardRequest::SetAddress),
            6 => Some(StandardRequest::GetDescriptor),
            7 => Some(StandardRequest::SetDescriptor),
            8 => Some(StandardRequest::GetConfiguration),
            9 => Some(StandardRequest::SetConfiguration),
            10 => Some(StandardRequest::GetInterface),
            11 => Some(StandardRequest::SetInterface),
            12 => Some(StandardRequest::SynchFrame),
            _ => None,
        }
    }
}

impl TryFrom<u8> for StandardRequest {
    type Error = ();

    fn try_from(val: u8) -> (r: Result<Self, ()>) {
        match val {
            0 => Ok(StandardRequest::GetStatus),
            1 => Ok(StandardRequest::ClearFeature),
            3 => Ok(StandardRequest::SetFeature),
            5 => Ok(StandardRequest::SetAddress),
            6 => Ok(StandardRequest::GetDescriptor),
            7 => Ok(StandardRequest::SetDescriptor),
            8 => Ok(StandardRequest::GetConfiguration),
            9 => Ok(StandardRequest::SetConfiguration),
            10 => Ok(StandardRequest::GetInterface),
            11 => Ok(StandardRequest::SetInterface),
            12 => Ok(StandardRequest::SynchFrame),
            _ => Err(()),
        }
    }
}

impl vstd::std_specs::convert::TryFromSpecImpl<u8> for StandardRequest {
    open spec fn obeys_try_from_spec() -> bool {
        true
    }

    open spec fn try_from_spec(v: u8) -> Result<Self, ()> {
        match StandardRequest::spec_from_u8(v) {
            Some(r) => Ok(r),
            None => Err(()),
        }
    }
}

/// 8-byte USB Control Transfer Setup Packet
#[derive(Copy, Clone, PartialEq, Eq, Structural, Hash, Debug)]
pub struct SetupPacket {
    pub request_type: u8,
    pub request: u8,
    pub value: u16,
    pub index: u16,
    pub length: u16,
}

/// The request type encoded in bits 5..7 of `bmRequestType`.
pub open spec fn req_type_of(b: u8) -> RequestType {
    let t = (b >> 5) & 0x03;
    if t == 0 {
        RequestType::Standard
    } else if t == 1 {
        RequestType::Class
    } else if t == 2 {
        RequestType::Vendor
    } else {
        RequestType::Reserved
    }
}

/// The recipient encoded in bits 0..5 of `bmRequestType` (codes above 2 are `Other`).
pub open spec fn recipient_of(b: u8) -> Recipient {
    let r = b & 0x1F;
    if r == 0 {
        Recipient::Device
    } else if r == 1 {
        Recipient::Interface
    } else if r == 2 {
        Recipient::Endpoint
    } else {
        Recipient::Other
    }
}

impl SetupPacket {
    pub const SIZE: usize = 8;

    /// The packet that the 8 bytes `s` encode (16-bit fields little-endian).
    pub open spec fn spec_from_bytes(s: Seq<u8>) -> SetupPacket {
        SetupPacket {
            request_type: s[0],
            request: s[1],
            value: le16(s, 2),
            index: le16(s, 4),
            length: le16(s, 6),
        }
    }

    /// The 8 bytes that encode the packet.
    pub open spec fn spec_to_bytes(self) -> Seq<u8> {
        seq![
            self.request_type,
            self.request,
            (self.value % 256) as u8,
            (self.value / 256) as u8,
            (self.index % 256) as u8,
            (self.index / 256) as u8,
            (self.length % 256) as u8,
            (self.length / 256) as u8,
        ]
    }

    pub fn from_bytes(bytes: &[u8; 8]) -> (r: Self)
        ensures
            r == Self::spec_from_bytes(bytes@),
    {
        SetupPacket {
            request_type: bytes[0],
            request: bytes[1],
            value: read_le_u16(bytes, 2),
            index: read_le_u16(bytes, 4),
            length: read_le_u16(bytes, 6),
        }
    }

    pub fn to_bytes(&self, bytes: &mut [u8; 8])
        ensures
            final(bytes)@ == self.spec_to_bytes(),
    {
        bytes[0] = self.request_type;
        bytes[1] = self.request;
        write_le_u16(bytes, 2, self.value);
        write_le_u16(bytes, 4, self.index);
        write_le_u16(bytes, 6, self.length);
        assert(bytes@ =~= self.spec_to_bytes());
    }

    /// The data-stage direction, bit 7 of `bmRequestType`.
    pub fn direction(&self) -> (r: Direction)
        ensures
            r == dir_of_bit7(self.request_type),
    {
        if (self.request_type & 0x80) != 0 {
            Direction::In
        } else {
            Direction::Out
        }
    }

    pub fn req_type(&self) -> (r: RequestType)
        ensures
            r == req_type_of(self.request_type),
    {
        match (self.request_type >> 5) & 0x03 {
            0 => RequestType::Standard,
            1 => RequestType::Class,
            2 => RequestType::Vendor,
            _ => RequestType::Reserved,
        }
    }

    pub fn recipient(&self) -> (r: Recipient)
        ensures
            r == recipient_of(self.request_type),
    {
        match self.request_type & 0x1F {
            0 => Recipient::Device,
            1 => Recipient::Interface,
            2 => Recipient::Endpoint,
            _ => Recipient::Other,
        }
    }

    /// The standard request, for a packet of type `Standard` whose `bRequest`
    /// is a known standard code; `None` otherwise.
    pub fn standard_request(&self) -> (r: Option<StandardRequest>)
        ensures
            r == (if req_type_of(self.request_type) == RequestType::Standard {
                StandardRequest::spec_from_u8(self.request)
            } else {
                None
            }),
    {
        if self.req_type() == RequestType::Standard {
            StandardRequest::try_from(self.request).ok()
        } else {
            None
        }
    }
}

/// Decoding the bytes that encode a setup packet gives the packet back.
pub proof fn lemma_setup_packet_roundtrip(p: SetupPacket)
    ensures
        SetupPacket::spec_from_bytes(p.spec_to_bytes()) == p,
{
}

/// Encoding a decoded setup packet gives back the 8 bytes it came from.
pub proof fn lemma_setup_bytes_roundtrip(s: Seq<u8>)
    requires
        s.len() == 8,
    ensures
        SetupPacket::spec_from_bytes(s).spec_to_bytes() == s,
{
    assert(SetupPacket::spec_from_bytes(s).spec_to_bytes() =~= s);
}

/// A standard request's code decodes back to the request.
pub proof fn lemma_standard_request_code(r: StandardRequest)
    ensures
        StandardRequest::spec_from_u8(r.spec_to_u8()) == Some(r),
{
}

/// The standard request codes of USB 2.0 Table 9-4: each request encodes to
/// its code and the code decodes to it; codes 2 and 4 and every code above 12
/// name no standard request.
pub proof fn lemma_standard_request_table(b: u8)
    ensures
        StandardRequest::GetStatus.spec_to_u8() == 0,
        StandardRequest::ClearFeature.spec_to_u8() == 1,
        StandardRequest::SetFeature.spec_to_u8() == 3,
        StandardRequest::SetAddress.spec_to_u8() == 5,
        StandardRequest::GetDescriptor.spec_to_u8() == 6,
        StandardRequest::SetDescriptor.spec_to_u8() == 7,
        StandardRequest::GetConfiguration.spec_to_u8() == 8,
        StandardRequest::SetConfiguration.spec_to_u8() == 9,
        StandardRequest::GetInterface.spec_to_u8() == 10,
        StandardRequest::SetInterface.spec_to_u8() == 11,
        StandardRequest::SynchFrame.spec_to_u8() == 12,
        StandardRequest::spec_from_u8(0) == Some(StandardRequest::GetStatus),
        StandardRequest::spec_from_u8(1) == Some(StandardRequest::ClearFeature),
        StandardRequest::spec_from_u8(3) == Some(StandardRequest::SetFeature),
        StandardRequest::spec_from_u8(5) == Some(StandardRequest::SetAddress),
        StandardRequest::spec_from_u8(6) == Some(StandardRequest::GetDescriptor),
        StandardRequest::spec_from_u8(7) == Some(StandardRequest::SetDescriptor),
        StandardRequest::spec_from_u8(8) == Some(StandardRequest::GetConfiguration),
        StandardRequest::spec_from_u8(9) == Some(StandardRequest::SetConfiguration),
        StandardRequest::spec_from_u8(10) == Some(StandardRequest::GetInterface),
        StandardRequest::spec_from_u8(11) == Some(StandardRequest::SetInterface),
        StandardRequest::spec_from_u8(12) == Some(StandardRequest::SynchFrame),
        (b == 2 || b == 4 || b > 12) ==> StandardRequest::spec_from_u8(b) is None,
        StandardRequest::spec_from_u8(b) matches Some(r) ==> r.spec_to_u8() == b,
{
}

/// The fields of a setup packet sit at the offsets of USB 2.0 Table 9-2:
/// `bmRequestType` at byte 0, `bRequest` at 1, then `wValue`, `wIndex` and
/// `wLength` little-endian at bytes 2, 4 and 6; encoding puts them back there.
pub proof fn lemma_setup_packet_layout(s: Seq<u8>, p: SetupPacket)
    requires
        s.len() == 8,
    ensures
        SetupPacket::spec_from_bytes(s).request_type == s[0],
        SetupPacket::spec_from_bytes(s).request == s[1],
        SetupPacket::spec_from_bytes(s).value == s[2] + 256 * s[3],
        SetupPacket::spec_from_bytes(s).index == s[4] + 256 * s[5],
        SetupPacket::spec_from_bytes(s).length == s[6] + 256 * s[7],
        p.spec_to_bytes().len() == 8,
        p.spec_to_bytes()[0] == p.request_type,
        p.spec_to_bytes()[1] == p.request,
        p.spec_to_bytes()[2] + 256 * p.spec_to_bytes()[3] == p.value,
        p.spec_to_bytes()[4] + 256 * p.spec_to_bytes()[5] == p.index,
        p.spec_to_bytes()[6] + 256 * p.spec_to_bytes()[7] == p.length,
{
}

/// `bmRequestType` (USB 2.0 Table 9-2): bit 7 is the direction (set for
/// device-to-host), bits 5..7 the type (0 standard, 1 class, 2 vendor, 3
/// reserved), bits 0..5 the recipient (0 device, 1 interface, 2 endpoint,
/// any other value other).
pub proof fn lemma_request_type_bits(b: u8)
    ensures
        (dir_of_bit7(b) == Direction::In) == (b >= 128),
        req_type_of(b).spec_to_u8() == b / 32 % 4,
        RequestType::Standard.spec_to_u8() == 0 && RequestType::Class.spec_to_u8() == 1
            && RequestType::Vendor.spec_to_u8() == 2 && RequestType::Reserved.spec_to_u8() == 3,
        b % 32 == 0 ==> recipient_of(b) == Recipient::Device,
        b % 32 == 1 ==> recipient_of(b) == Recipient::Interface,
        b % 32 == 2 ==> recipient_of(b) == Recipient::Endpoint,
        b % 32 > 2 ==> recipient_of(b) == Recipient::Other,
        Recipient::Device.spec_to_u8() == 0 && Recipient::Interface.spec_to_u8() == 1
            && Recipient::Endpoint.spec_to_u8() == 2 && Recipient::Other.spec_to_u8() == 3,
{
    assert((b & 0x80 != 0) == (b >= 128)) by (bit_vector);
    assert((b >> 5) & 0x03 == b / 32 % 4) by (bit_vector);
    assert(b & 0x1F == b % 32) by (bit_vector);
}

} // verus!
