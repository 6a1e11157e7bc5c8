//! USB primitive types and constants.
use vstd::prelude::*;

verus! {

/// USB Speed (same encoding as TinyUSB `tusb_speed_t` / EHCI).
#[derive(Copy, Clone, PartialEq, Eq, Structural, PartialOrd, Ord, Hash, Debug)]
pub enum Speed {
    Full,
    Low,
    High,
    Auto,
    Invalid,
}

impl Speed {
    /// The wire code of the speed.
    pub open spec fn spec_to_u8(self) -> u8 {
        match self {
            Speed::Full => 0,
            Speed::Low => 1,
            Speed::High => 2,
            Speed::Auto => 0xAA,
            Speed::Invalid => 0xFF,
        }
    }

    /// The wire code of the speed (`Full` 0, `Low` 1, `High` 2, `Auto` 0xAA, `Invalid` 0xFF).
    #[verifier::when_used_as_spec(spec_to_u8)]
    pub fn to_u8(self) -> (r: u8)
        ensures
            r == self.spec_to_u8(),
    {
        match self {
            Speed::Full => 0,
            Speed::Low => 1,
            Speed::High => 2,
            Speed::Auto => 0xAA,
            Speed::Invalid => 0xFF,
        }
    }
}

/// USB Role (same encoding as TinyUSB `tusb_role_t`).
#[derive(Copy, Clone, PartialEq, Eq, Structural, Hash, Debug)]
pub enum Role {
    Invalid,
    Device,
    Host,
}

impl Role {
    pub open spec fn spec_to_u8(self) -> u8 {
        match self {
            Role::Invalid => 0,
            Role::Device => 1,
            Role::Host => 2,
        }
    }

    /// The wire code of the role (`Invalid` 0, `Device` 1, `Host` 2).
    #[verifier::when_used_as_spec(spec_to_u8)]
    pub fn to_u8(self) -> (r: u8)
        ensures
            r == self.spec_to_u8(),
    {
        match self {
            Role::Invalid => 0,
            Role::Device => 1,
            Role::Host => 2,
        }
    }
}

/// USB Transfer Type
#[derive(Copy, Clone, PartialEq, Eq, Structural, Hash, Debug)]
pub enum TransferType {
    Control,
    Isochronous,
    Bulk,
    Interrupt,
}

impl TransferType {
    pub open spec fn spec_to_u8(self) -> u8 {
        match self {
            TransferType::Control => 0,
            TransferType::Isochronous => 1,
            TransferType::Bulk => 2,
            TransferType::Interrupt => 3,
        }
    }

    /// The code of the transfer type in `bmAttributes` (0 to 3).
    #[verifier::when_used_as_spec(spec_to_u8)]
    pub fn to_u8(self) -> (r: u8)
        ensures
            r == self.spec_to_u8(),
    {
        match self {
            TransferType::Control => 0,
            TransferType::Isochronous => 1,
            TransferType::Bulk => 2,
            TransferType::Interrupt => 3,
        }
    }
}

/// USB Transfer Direction
#[derive(Copy, Clone, PartialEq, Eq, Structural, Hash, Debug)]
pub enum Direction {
    Out,
    In,
}

impl Direction {
    pub open spec fn spec_to_u8(self) -> u8 {
        match self {
            Direction::Out => 0,
            Direction::In => 1,
        }
    }

    /// The code of the direction (`Out` 0, `In` 1).
    #[verifier::when_used_as_spec(spec_to_u8)]
    pub fn to_u8(self) -> (r: u8)
        ensures
            r == self.spec_to_u8(),
    {
        match self {
            Direction::Out => 0,
            Direction::In => 1,
        }
    }
}

/// USB Endpoint Address with Direction: bits 0..3 hold the endpoint number,
/// bit 7 is set for IN endpoints.
#[derive(Copy, Clone, PartialEq, Eq, Structural, Hash, Debug)]
pub struct EndpointAddress(pub u8);

/// The direction bit of an endpoint address or a request type.
pub open spec fn dir_of_bit7(b: u8) -> Direction {
    if b & 0x80 != 0 {
        Direction::In
    } else {
        Direction::Out
    }
}

impl EndpointAddress {
    /// The address of endpoint `number` (only its low four bits) in direction `dir`.
    pub fn from_parts(number: u8, dir: Direction) -> (r: Self)
        ensures
            r.0 == (number & 0x0F) | (if dir == Direction::In { 0x80u8 } else { 0u8 }),
    {
        let addr = (number & 0x0F) | match dir {
            Direction::In => 0x80u8,
            Direction::Out => 0x00u8,
        };
        EndpointAddress(addr)
    }

    /// The endpoint number, the low four bits.
    pub fn number(&self) -> (r: u8)
        ensures
            r == self.0 & 0x0F,
    {
        self.0 & 0x0F
    }

    /// The direction given by bit 7.
    pub fn direction(&self) -> (r: Direction)
        ensures
            r == dir_of_bit7(self.0),
    {
        if (self.0 & 0x80) != 0 {
            Direction::In
        } else {
            Direction::Out
        }
    }

    pub fn is_in(&self) -> (r: bool)
        ensures
            r == (self.0 & 0x80 != 0),
    {
        (self.0 & 0x80) != 0
    }

    pub fn is_out(&self) -> (r: bool)
        ensures
            r == (self.0 & 0x80 == 0),
    {
        (self.0 & 0x80) == 0
    }
}

/// An endpoint address built from parts gives back the number (low four bits
/// of it) and the direction.
pub proof fn lemma_endpoint_address_parts(number: u8, dir: Direction)
    ensures
        ({
            let a = (number & 0x0F) | (if dir == Direction::In { 0x80u8 } else { 0u8 });
            &&& a & 0x0F == number & 0x0F
            &&& dir_of_bit7(a) == dir
            &&& (a & 0x80 != 0) == (dir == Direction::In)
        }),
{
    let hi: u8 = if dir == Direction::In { 0x80u8 } else { 0u8 };
    assert(((number & 0x0F) | hi) & 0x0F == number & 0x0F) by (bit_vector)
        requires
            hi == 0x80u8 || hi == 0u8,
    ;
    assert((((number & 0x0F) | hi) & 0x80 != 0) == (hi == 0x80u8)) by (bit_vector)
        requires
            hi == 0x80u8 || hi == 0u8,
    ;
}

/// Isochronous Endpoint Synchronization and Usage Attributes (flags over `u8`).
#[derive(Copy, Clone, PartialEq, Eq, Structural, Hash, Debug)]
pub struct IsoAttributes {
    bits: u8,
}

impl IsoAttributes {
    pub const NO_SYNC: u8 = 0x00;
    pub const ASYNCHRONOUS: u8 = 0x04;
    pub const ADAPTIVE: u8 = 0x08;
    pub const SYNCHRONOUS: u8 = 0x0C;
    pub const USAGE_DATA: u8 = 0x00;
    pub const USAGE_FEEDBACK: u8 = 0x10;
    pub const USAGE_IMPLICIT_FEEDBACK: u8 = 0x20;

    /// The union of all defined flags.
    pub open spec fn all_bits() -> u8 {
        0x3C
    }

    pub closed spec fn spec_bits(&self) -> u8 {
        self.bits
    }

    /// The flag set holding exactly the defined flags among `bits`.
    pub fn from_bits_truncate(bits: u8) -> (r: Self)
        ensures
            r.spec_bits() == bits & 0x3C,
    {
        IsoAttributes { bits: bits & 0x3C }
    }

    /// The flag set holding `bits`, if every bit in it is a defined flag.
    pub fn from_bits(bits: u8) -> (r: Option<Self>)
        ensures
            (bits & !0x3Cu8 == 0) ==> r is Some && r->0.spec_bits() == bits,
            (bits & !0x3Cu8 != 0) ==> r is None,
    {
        if bits & !0x3Cu8 == 0 {
            Some(IsoAttributes { bits })
        } else {
            None
        }
    }

    #[verifier::when_used_as_spec(spec_bits)]
    pub fn bits(&self) -> (r: u8)
        ensures
            r == self.spec_bits(),
    {
        self.bits
    }

    /// Whether every bit of `other` is set in `self`.
    pub fn contains(&self, other: Self) -> (r: bool)
        ensures
            r == (self.spec_bits() & other.spec_bits() == other.spec_bits()),
    {
        self.bits & other.bits == other.bits
    }

    /// The flag set with no bits set.
    pub fn empty() -> (r: Self)
        ensures
            r.spec_bits() == 0,
    {
        IsoAttributes { bits: 0 }
    }

    /// The flag set with every defined flag set.
    pub fn all() -> (r: Self)
        ensures
            r.spec_bits() == Self::all_bits(),
    {
        IsoAttributes { bits: 0x3C }
    }

    /// Whether no bit is set.
    pub fn is_empty(&self) -> (r: bool)
        ensures
            r == (self.spec_bits() == 0),
    {
        self.bits == 0
    }

    /// The bits set in either flag set.
    pub fn union(self, other: Self) -> (r: Self)
        ensures
            r.spec_bits() == self.spec_bits() | other.spec_bits(),
    {
        IsoAttributes { bits: self.bits | other.bits }
    }

    /// The bits set in both flag sets.
    pub fn intersection(self, other: Self) -> (r: Self)
        ensures
            r.spec_bits() == self.spec_bits() & other.spec_bits(),
    {
        IsoAttributes { bits: self.bits & other.bits }
    }

    /// The bits of `self` that are not set in `other`.
    pub fn difference(self, other: Self) -> (r: Self)
        ensures
            r.spec_bits() == self.spec_bits() & !other.spec_bits(),
    {
        IsoAttributes { bits: self.bits & !other.bits }
    }

    /// Sets the bits of `other`.
    pub fn insert(&mut self, other: Self)
        ensures
            final(self).spec_bits() == old(self).spec_bits() | other.spec_bits(),
    {
        self.bits = self.bits | other.bits;
    }

    /// Clears the bits of `other`.
    pub fn remove(&mut self, other: Self)
        ensures
            final(self).spec_bits() == old(self).spec_bits() & !other.spec_bits(),
    {
        self.bits = self.bits & !other.bits;
    }
}

/// After inserting `b` the set contains `b`; after removing `b` it shares no
/// bit with `b`; both leave the other bits as they were.
pub proof fn lemma_iso_insert_remove(a: IsoAttributes, b: IsoAttributes)
    ensures
        (a.spec_bits() | b.spec_bits()) & b.spec_bits() == b.spec_bits(),
        (a.spec_bits() & !b.spec_bits()) & b.spec_bits() == 0,
        (a.spec_bits() | b.spec_bits()) & !b.spec_bits() == a.spec_bits() & !b.spec_bits(),
        (a.spec_bits() & !b.spec_bits()) | (a.spec_bits() & b.spec_bits()) == a.spec_bits(),
{
    let x = a.spec_bits();
    let y = b.spec_bits();
    assert((x | y) & y == y) by (bit_vector);
    assert((x & !y) & y == 0) by (bit_vector);
    assert((x | y) & !y == x & !y) by (bit_vector);
    assert((x & !y) | (x & y) == x) by (bit_vector);
}

/// USB Class Codes
#[derive(Copy, Clone, PartialEq, Eq, Structural, Hash, Debug)]
pub enum ClassCode {
    Unspecified,
    Audio,
    Cdc,
    Hid,
    Physical,
    Image,
    Printer,
    MassStorage,
    Hub,
    CdcData,
    SmartCard,
    ContentSecurity,
    Video,
    PersonalHealthcare,
    AudioVideo,
    Billboard,
    TypeCBridge,
    Diagnostic,
    WirelessController,
    Miscellaneous,
    ApplicationSpecific,
    VendorSpecific,
}

impl ClassCode {
    pub open spec fn spec_to_u8(self) -> u8 {
        match self {
            ClassCode::Unspecified => 0x00,
            ClassCode::Audio => 0x01,
            ClassCode::Cdc => 0x02,
            ClassCode::Hid => 0x03,
            ClassCode::Physical => 0x05,
            ClassCode::Image => 0x06,
            ClassCode::Printer => 0x07,
            ClassCode::MassStorage => 0x08,
            ClassCode::Hub => 0x09,
            ClassCode::CdcData => 0x0A,
            ClassCode::SmartCard => 0x0B,
            ClassCode::ContentSecurity => 0x0D,
            ClassCode::Video => 0x0E,
            ClassCode::PersonalHealthcare => 0x0F,
            ClassCode::AudioVideo => 0x10,
            ClassCode::Billboard => 0x11,
            ClassCode::TypeCBridge => 0x12,
            ClassCode::Diagnostic => 0xDC,
            ClassCode::WirelessController => 0xE0,
            ClassCode::Miscellaneous => 0xEF,
            ClassCode::ApplicationSpecific => 0xFE,
            ClassCode::VendorSpecific => 0xFF,
        }
    }

    /// The class code byte.
    #[verifier::when_used_as_spec(spec_to_u8)]
    pub fn to_u8(self) -> (r: u8)
        ensures
            r == self.spec_to_u8(),
    {
        match self {
            ClassCode::Unspecified => 0x00,
            ClassCode::Audio => 0x01,
            ClassCode::Cdc => 0x02,
            ClassCode::Hid => 0x03,
            ClassCode::Physical => 0x05,
            ClassCode::Image => 0x06,
            ClassCode::Printer => 0x07,
            ClassCode::MassStorage => 0x08,
            ClassCode::Hub => 0x09,
            ClassCode::CdcData => 0x0A,
            ClassCode::SmartCard => 0x0B,
            ClassCode::ContentSecurity => 0x0D,
            ClassCode::Video => 0x0E,
            ClassCode::PersonalHealthcare => 0x0F,
            ClassCode::AudioVideo => 0x10,
            ClassCode::Billboard => 0x11,
            ClassCode::TypeCBridge => 0x12,
            ClassCode::Diagnostic => 0xDC,
            ClassCode::WirelessController => 0xE0,
            ClassCode::Miscellaneous => 0xEF,
            ClassCode::ApplicationSpecific => 0xFE,
            ClassCode::VendorSpecific => 0xFF,
        }
    }
}


/// The TinyUSB `tusb_speed_t` codes: each encodes to its code.
pub proof fn lemma_speed_codes()
    ensures
        Speed::Full.spec_to_u8() == 0,
        Speed::Low.spec_to_u8() == 1,
        Speed::High.spec_to_u8() == 2,
        Speed::Auto.spec_to_u8() == 0xAA,
        Speed::Invalid.spec_to_u8() == 0xFF,
{
}

/// The TinyUSB `tusb_role_t` codes: each encodes to its code.
pub proof fn lemma_role_codes()
    ensures
        Role::Invalid.spec_to_u8() == 0,
        Role::Device.spec_to_u8() == 1,
        Role::Host.spec_to_u8() == 2,
{
}

/// The endpoint `bmAttributes` transfer-type codes (USB 2.0 Table 9-13): each encodes to its code.
pub proof fn lemma_transfer_type_codes()
    ensures
        TransferType::Control.spec_to_u8() == 0,
        TransferType::Isochronous.spec_to_u8() == 1,
        TransferType::Bulk.spec_to_u8() == 2,
        TransferType::Interrupt.spec_to_u8() == 3,
{
}

/// The direction bit values (0 OUT, 1 IN): each encodes to its code.
pub proof fn lemma_direction_codes()
    ensures
        Direction::Out.spec_to_u8() == 0,
        Direction::In.spec_to_u8() == 1,
{
}

/// The USB-IF base class codes: each encodes to its code.
pub proof fn lemma_class_code_codes()
    ensures
        ClassCode::Unspecified.spec_to_u8() == 0x00,
        ClassCode::Audio.spec_to_u8() == 0x01,
        ClassCode::Cdc.spec_to_u8() == 0x02,
        ClassCode::Hid.spec_to_u8() == 0x03,
        ClassCode::Physical.spec_to_u8() == 0x05,
        ClassCode::Image.spec_to_u8() == 0x06,
        ClassCode::Printer.spec_to_u8() == 0x07,
        ClassCode::MassStorage.spec_to_u8() == 0x08,
        ClassCode::Hub.spec_to_u8() == 0x09,
        ClassCode::CdcData.spec_to_u8() == 0x0A,
        ClassCode::SmartCard.spec_to_u8() == 0x0B,
        ClassCode::ContentSecurity.spec_to_u8() == 0x0D,
        ClassCode::Video.spec_to_u8() == 0x0E,
        ClassCode::PersonalHealthcare.spec_to_u8() == 0x0F,
        ClassCode::AudioVideo.spec_to_u8() == 0x10,
        ClassCode::Billboard.spec_to_u8() == 0x11,
        ClassCode::TypeCBridge.spec_to_u8() == 0x12,
        ClassCode::Diagnostic.spec_to_u8() == 0xDC,
        ClassCode::WirelessController.spec_to_u8() == 0xE0,
        ClassCode::Miscellaneous.spec_to_u8() == 0xEF,
        ClassCode::ApplicationSpecific.spec_to_u8() == 0xFE,
        ClassCode::VendorSpecific.spec_to_u8() == 0xFF,
{
}


/// The isochronous endpoint attribute flags of `bmAttributes` (USB 2.0 Table
/// 9-13): synchronization type in bits 2..4 (none 0, asynchronous 0x04,
/// adaptive 0x08, synchronous 0x0C) and usage type in bits 4..6 (data 0,
/// feedback 0x10, implicit feedback 0x20); the defined bits are exactly those.
pub proof fn lemma_iso_attribute_flags()
    ensures
        IsoAttributes::NO_SYNC == 0 && IsoAttributes::ASYNCHRONOUS == 0x04
            && IsoAttributes::ADAPTIVE == 0x08 && IsoAttributes::SYNCHRONOUS == 0x0C,
        IsoAttributes::USAGE_DATA == 0 && IsoAttributes::USAGE_FEEDBACK == 0x10
            && IsoAttributes::USAGE_IMPLICIT_FEEDBACK == 0x20,
        IsoAttributes::all_bits() == 0x3C,
        IsoAttributes::all_bits() == IsoAttributes::SYNCHRONOUS | IsoAttributes::USAGE_FEEDBACK
            | IsoAttributes::USAGE_IMPLICIT_FEEDBACK,
{
    assert(0x0Cu8 | 0x10u8 | 0x20u8 == 0x3Cu8) by (bit_vector);
}

} // verus!
