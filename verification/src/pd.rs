//! USB Type-C and Power Delivery (PD) protocol definitions.
use vstd::prelude::*;

verus! {

#[derive(Copy, Clone, PartialEq, Eq, Structural, Debug)]
pub enum PortType {
    Source,
    Sink,
    DualRolePower,
    Disconnected,
}

impl PortType {
    pub open spec fn spec_to_u8(self) -> u8 {
        match self {
            PortType::Source => 0,
            PortType::Sink => 1,
            PortType::DualRolePower => 2,
            PortType::Disconnected => 3,
        }
    }

    /// The code of the port type (0 to 3).
    #[verifier::when_used_as_spec(spec_to_u8)]
    pub fn to_u8(self) -> (r: u8)
        ensures
            r == self.spec_to_u8(),
    {
        match self {
            PortType::Source => 0,
            PortType::Sink => 1,
            PortType::DualRolePower => 2,
            PortType::Disconnected => 3,
        }
    }
}

#[derive(Copy, Clone, PartialEq, Eq, Structural, Debug)]
pub enum DataRole {
    UpstreamFacingPort,
    DownstreamFacingPort,
}

impl DataRole {
    pub open spec fn spec_to_u8(self) -> u8 {
        match self {
            DataRole::UpstreamFacingPort => 0,
            DataRole::DownstreamFacingPort => 1,
        }
    }

    /// The header bit of the data role (UFP 0, DFP 1).
    #[verifier::when_used_as_spec(spec_to_u8)]
    pub fn to_u8(self) -> (r: u8)
        ensures
            r == self.spec_to_u8(),
    {
        match self {
            DataRole::UpstreamFacingPort => 0,
            DataRole::DownstreamFacingPort => 1,
        }
    }
}

#[derive(Copy, Clone, PartialEq, Eq, Structural, Debug)]
pub enum PowerRole {
    Sink,
    Source,
}

impl PowerRole {
    pub open spec fn spec_to_u8(self) -> u8 {
        match self {
            PowerRole::Sink => 0,
            PowerRole::Source => 1,
        }
    }

    /// The header bit of the power role (Sink 0, Source 1).
    #[verifier::when_used_as_spec(spec_to_u8)]
    pub fn to_u8(self) -> (r: u8)
        ensures
            r == self.spec_to_u8(),
    {
        match self {
            PowerRole::Sink => 0,
            PowerRole::Source => 1,
        }
    }
}

#[derive(Copy, Clone, PartialEq, Eq, Structural, Debug)]
pub enum PdControlMessage {
    GoodCrc,
    GotoMin,
    Accept,
    Reject,
    Ping,
    PsReady,
    GetSourceCap,
    GetSinkCap,
    DrSwap,
    PrSwap,
    VconnSwap,
    Wait,
    SoftReset,
    NotSupported,
}

impl PdControlMessage {
    pub open spec fn spec_to_u8(self) -> u8 {
        match self {
            PdControlMessage::GoodCrc => 1,
            PdControlMessage::GotoMin => 2,
            PdControlMessage::Accept => 3,
            PdControlMessage::Reject => 4,
            PdControlMessage::Ping => 5,
            PdControlMessage::PsReady => 6,
            PdControlMessage::GetSourceCap => 7,
            PdControlMessage::GetSinkCap => 8,
            PdControlMessage::DrSwap => 9,
            PdControlMessage::PrSwap => 10,
            PdControlMessage::VconnSwap => 11,
            PdControlMessage::Wait => 12,
            PdControlMessage::SoftReset => 13,
            PdControlMessage::NotSupported => 16,
        }
    }

    /// The message type code of the control message.
    #[verifier::when_used_as_spec(spec_to_u8)]
    pub fn to_u8(self) -> (r: u8)
        ensures
            r == self.spec_to_u8(),
    {
        match self {
            PdControlMessage::GoodCrc => 1,
            PdControlMessage::GotoMin => 2,
            PdControlMessage::Accept => 3,
            PdControlMessage::Reject => 4,
            PdControlMessage::Ping => 5,
            PdControlMessage::PsReady => 6,
            PdControlMessage::GetSourceCap => 7,
            PdControlMessage::GetSinkCap => 8,
            PdControlMessage::DrSwap => 9,
            PdControlMessage::PrSwap => 10,
            PdControlMessage::VconnSwap => 11,
            PdControlMessage::Wait => 12,
            PdControlMessage::SoftReset => 13,
            PdControlMessage::NotSupported => 16,
        }
    }
}

#[derive(Copy, Clone, PartialEq, Eq, Structural, Debug)]
pub enum PdDataMessage {
    SourceCapabilities,
    Request,
    SinkCapabilities,
    BatteryStatus,
    Alert,
    VendorDefined,
}

impl PdDataMessage {
    pub open spec fn spec_to_u8(self) -> u8 {
        match self {
            PdDataMessage::SourceCapabilities => 1,
            PdDataMessage::Request => 2,
            PdDataMessage::SinkCapabilities => 4,
            PdDataMessage::BatteryStatus => 5,
            PdDataMessage::Alert => 6,
            PdDataMessage::VendorDefined => 15,
        }
    }

    /// The message type code of the data message.
    #[verifier::when_used_as_spec(spec_to_u8)]
    pub fn to_u8(self) -> (r: u8)
        ensures
            r == self.spec_to_u8(),
    {
        match self {
            PdDataMessage::SourceCapabilities => 1,
            PdDataMessage::Request => 2,
            PdDataMessage::SinkCapabilities => 4,
            PdDataMessage::BatteryStatus => 5,
            PdDataMessage::Alert => 6,
            PdDataMessage::VendorDefined => 15,
        }
    }
}

/// 16-bit USB PD Message Header: bits 0..5 message type, bit 5 data role,
/// bits 6..8 specification revision, bit 8 power role, bits 9..12 message ID,
/// bits 12..15 number of data objects.
#[derive(Copy, Clone, PartialEq, Eq, Structural, Debug)]
pub struct MessageHeader(pub u16);

/// The header word for the given fields (revision 3.0, each field masked to its width).
pub open spec fn header_bits(msg_type: u8, data_role: u8, power_role: u8, msg_id: u8, num_data_objects: u8) -> u16 {
    ((msg_type as u16) & 0x1F) | (((data_role as u16) & 0x01) << 5) | (0x02u16 << 6) | (((
    power_role as u16) & 0x01) << 8) | (((msg_id as u16) & 0x07) << 9) | (((
    num_data_objects as u16) & 0x07) << 12)
}

impl MessageHeader {
    pub fn new(
        msg_type: u8,
        data_role: DataRole,
        power_role: PowerRole,
        msg_id: u8,
        num_data_objects: u8,
    ) -> (r: Self)
        ensures
            r.0 == header_bits(
                msg_type,
                data_role.spec_to_u8(),
                power_role.spec_to_u8(),
                msg_id,
                num_data_objects,
            ),
    {
        let val = ((msg_type as u16) & 0x1F) | (((data_role.to_u8() as u16) & 0x01) << 5) | (0x02u16
            << 6) | (((power_role.to_u8() as u16) & 0x01) << 8) | (((msg_id as u16) & 0x07) << 9) | (((
        num_data_objects as u16) & 0x07) << 12);
        MessageHeader(val)
    }

    pub fn msg_type(&self) -> (r: u8)
        ensures
            r == (self.0 & 0x1F) as u8,
    {
        (self.0 & 0x1F) as u8
    }

    pub fn data_role(&self) -> (r: DataRole)
        ensures
            r == (if self.0 & 0x20 != 0 {
                DataRole::DownstreamFacingPort
            } else {
                DataRole::UpstreamFacingPort
            }),
    {
        if (self.0 & 0x20) != 0 {
            DataRole::DownstreamFacingPort
        } else {
            DataRole::UpstreamFacingPort
        }
    }

    pub fn power_role(&self) -> (r: PowerRole)
        ensures
            r == (if self.0 & 0x100 != 0 {
                PowerRole::Source
            } else {
                PowerRole::Sink
            }),
    {
        if (self.0 & 0x100) != 0 {
            PowerRole::Source
        } else {
            PowerRole::Sink
        }
    }

    pub fn msg_id(&self) -> (r: u8)
        ensures
            r == ((self.0 >> 9) & 0x07) as u8,
    {
        ((self.0 >> 9) & 0x07) as u8
    }

    pub fn num_data_objects(&self) -> (r: u8)
        ensures
            r == ((self.0 >> 12) & 0x07) as u8,
    {
        ((self.0 >> 12) & 0x07) as u8
    }

    pub fn is_control_message(&self) -> (r: bool)
        ensures
            r == ((self.0 >> 12) & 0x07 == 0),
    {
        let w = self.0;
        assert((((w >> 12) & 0x07) as u8 == 0) == ((w >> 12) & 0x07 == 0)) by (bit_vector);
        self.num_data_objects() == 0
    }

    pub fn is_data_message(&self) -> (r: bool)
        ensures
            r == ((self.0 >> 12) & 0x07 != 0),
    {
        let w = self.0;
        assert((((w >> 12) & 0x07) as u8 > 0) == ((w >> 12) & 0x07 != 0)) by (bit_vector);
        self.num_data_objects() > 0
    }
}

/// A header built from fields gives the fields back (each masked to its
/// width), and carries specification revision 3.0.
pub proof fn lemma_header_fields(msg_type: u8, data_role: DataRole, power_role: PowerRole, msg_id: u8, num_data_objects: u8)
    ensures
        ({
            let h = header_bits(
                msg_type,
                data_role.spec_to_u8(),
                power_role.spec_to_u8(),
                msg_id,
                num_data_objects,
            );
            &&& (h & 0x1F) as u8 == msg_type & 0x1F
            &&& (h & 0x20 != 0) == (data_role == DataRole::DownstreamFacingPort)
            &&& (h & 0x100 != 0) == (power_role == PowerRole::Source)
            &&& ((h >> 9) & 0x07) as u8 == msg_id & 0x07
            &&& ((h >> 12) & 0x07) as u8 == num_data_objects & 0x07
            &&& (h >> 6) & 0x03 == 2
        }),
{
    let d = data_role.spec_to_u8();
    let p = power_role.spec_to_u8();
    assert({
        let h = ((msg_type as u16) & 0x1F) | (((d as u16) & 0x01) << 5) | (0x02u16 << 6) | (((
        p as u16) & 0x01) << 8) | (((msg_id as u16) & 0x07) << 9) | (((
        num_data_objects as u16) & 0x07) << 12);
        &&& (h & 0x1F) as u8 == msg_type & 0x1F
        &&& (h & 0x20 != 0) == (d == 1)
        &&& (h & 0x100 != 0) == (p == 1)
        &&& ((h >> 9) & 0x07) as u8 == msg_id & 0x07
        &&& ((h >> 12) & 0x07) as u8 == num_data_objects & 0x07
        &&& (h >> 6) & 0x03 == 2
    }) by (bit_vector)
        requires
            d == 0 || d == 1,
            p == 0 || p == 1,
    ;
}

/// Fixed Power Data Object (Source): bits 0..10 maximum current in 10 mA
/// units, bits 10..20 voltage in 50 mV units, bits 30..32 zero (fixed supply).
#[derive(Copy, Clone, PartialEq, Eq, Structural, Debug)]
pub struct FixedSupplyPdo(pub u32);

impl FixedSupplyPdo {
    pub fn new(voltage_50mv: u16, max_current_10ma: u16) -> (r: Self)
        ensures
            r.0 == ((max_current_10ma as u32) & 0x3FF) | (((voltage_50mv as u32) & 0x3FF) << 10),
    {
        let val = ((max_current_10ma as u32) & 0x3FF) | (((voltage_50mv as u32) & 0x3FF) << 10);
        FixedSupplyPdo(val)
    }

    pub fn voltage_mv(&self) -> (r: u32)
        ensures
            r == ((self.0 >> 10) & 0x3FF) * 50,
    {
        let w = self.0;
        let v = (w >> 10) & 0x3FF;
        assert(v <= 0x3FF) by (bit_vector)
            requires
                v == (w >> 10) & 0x3FF,
        ;
        v * 50
    }

    pub fn max_current_ma(&self) -> (r: u32)
        ensures
            r == (self.0 & 0x3FF) * 10,
    {
        let w = self.0;
        let c = w & 0x3FF;
        assert(c <= 0x3FF) by (bit_vector)
            requires
                c == w & 0x3FF,
        ;
        c * 10
    }
}

/// A fixed-supply PDO built from a voltage and a current gives them back
/// (each masked to 10 bits) in millivolts and milliamperes.
pub proof fn lemma_pdo_fields(voltage_50mv: u16, max_current_10ma: u16)
    ensures
        ({
            let w = ((max_current_10ma as u32) & 0x3FF) | (((voltage_50mv as u32) & 0x3FF) << 10);
            &&& ((w >> 10) & 0x3FF) * 50 == (voltage_50mv & 0x3FF) * 50
            &&& (w & 0x3FF) * 10 == (max_current_10ma & 0x3FF) * 10
            &&& w >> 30 == 0
        }),
{
    assert({
        let w = ((max_current_10ma as u32) & 0x3FF) | (((voltage_50mv as u32) & 0x3FF) << 10);
        &&& (w >> 10) & 0x3FF == (voltage_50mv & 0x3FF) as u32
        &&& w & 0x3FF == (max_current_10ma & 0x3FF) as u32
        &&& w >> 30 == 0
    }) by (bit_vector);
}


/// The Type-C port type codes: each encodes to its code.
pub proof fn lemma_port_type_codes()
    ensures
        PortType::Source.spec_to_u8() == 0,
        PortType::Sink.spec_to_u8() == 1,
        PortType::DualRolePower.spec_to_u8() == 2,
        PortType::Disconnected.spec_to_u8() == 3,
{
}

/// The PD header data role bit: each encodes to its code.
pub proof fn lemma_data_role_codes()
    ensures
        DataRole::UpstreamFacingPort.spec_to_u8() == 0,
        DataRole::DownstreamFacingPort.spec_to_u8() == 1,
{
}

/// The PD header power role bit: each encodes to its code.
pub proof fn lemma_power_role_codes()
    ensures
        PowerRole::Sink.spec_to_u8() == 0,
        PowerRole::Source.spec_to_u8() == 1,
{
}

/// The PD control message type codes (USB PD 3.0 Table 6-5): each encodes to its code.
pub proof fn lemma_pd_control_message_codes()
    ensures
        PdControlMessage::GoodCrc.spec_to_u8() == 1,
        PdControlMessage::GotoMin.spec_to_u8() == 2,
        PdControlMessage::Accept.spec_to_u8() == 3,
        PdControlMessage::Reject.spec_to_u8() == 4,
        PdControlMessage::Ping.spec_to_u8() == 5,
        PdControlMessage::PsReady.spec_to_u8() == 6,
        PdControlMessage::GetSourceCap.spec_to_u8() == 7,
        PdControlMessage::GetSinkCap.spec_to_u8() == 8,
        PdControlMessage::DrSwap.spec_to_u8() == 9,
        PdControlMessage::PrSwap.spec_to_u8() == 10,
        PdControlMessage::VconnSwap.spec_to_u8() == 11,
        PdControlMessage::Wait.spec_to_u8() == 12,
        PdControlMessage::SoftReset.spec_to_u8() == 13,
        PdControlMessage::NotSupported.spec_to_u8() == 16,
{
}

/// The PD data message type codes (USB PD 3.0 Table 6-6): each encodes to its code.
pub proof fn lemma_pd_data_message_codes()
    ensures
        PdDataMessage::SourceCapabilities.spec_to_u8() == 1,
        PdDataMessage::Request.spec_to_u8() == 2,
        PdDataMessage::SinkCapabilities.spec_to_u8() == 4,
        PdDataMessage::BatteryStatus.spec_to_u8() == 5,
        PdDataMessage::Alert.spec_to_u8() == 6,
        PdDataMessage::VendorDefined.spec_to_u8() == 15,
{
}

} // verus!
