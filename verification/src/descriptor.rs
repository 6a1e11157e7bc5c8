//! Standard USB Descriptors.
use crate::codec::{le16, read_le_u16, write_le_u16};
use vstd::prelude::*;

verus! {

/// USB Descriptor Types
#[derive(Copy, Clone, PartialEq, Eq, Structural, Hash, Debug)]
pub enum DescriptorType {
    Device,
    Configuration,
    String,
    Interface,
    Endpoint,
    DeviceQualifier,
    OtherSpeedConfiguration,
    InterfacePower,
    Otg,
    Debug,
    InterfaceAssociation,
    Bos,
    DeviceCapability,
    Hid,
    HidReport,
    CsInterface,
    CsEndpoint,
}

impl DescriptorType {
    pub open spec fn spec_to_u8(self) -> u8 {
        match self {
            DescriptorType::Device => 0x01,
            DescriptorType::Configuration => 0x02,
            DescriptorType::String => 0x03,
            DescriptorType::Interface => 0x04,
            DescriptorType::Endpoint => 0x05,
            DescriptorType::DeviceQualifier => 0x06,
            DescriptorType::OtherSpeedConfiguration => 0x07,
            DescriptorType::InterfacePower => 0x08,
            DescriptorType::Otg => 0x09,
            DescriptorType::Debug => 0x0A,
            DescriptorType::InterfaceAssociation => 0x0B,
            DescriptorType::Bos => 0x0F,
            DescriptorType::DeviceCapability => 0x10,
            DescriptorType::Hid => 0x21,
            DescriptorType::HidReport => 0x22,
            DescriptorType::CsInterface => 0x24,
            DescriptorType::CsEndpoint => 0x25,
        }
    }

    /// The `bDescriptorType` code.
    #[verifier::when_used_as_spec(spec_to_u8)]
    pub fn to_u8(self) -> (r: u8)
        ensures
            r == self.spec_to_u8(),
    {
        match self {
            DescriptorType::Device => 0x01,
            DescriptorType::Configuration => 0x02,
            DescriptorType::String => 0x03,
            DescriptorType::Interface => 0x04,
            DescriptorType::Endpoint => 0x05,
            DescriptorType::DeviceQualifier => 0x06,
            DescriptorType::OtherSpeedConfiguration => 0x07,
            DescriptorType::InterfacePower => 0x08,
            DescriptorType::Otg => 0x09,
            DescriptorType::Debug => 0x0A,
            DescriptorType::InterfaceAssociation => 0x0B,
            DescriptorType::Bos => 0x0F,
            DescriptorType::DeviceCapability => 0x10,
            DescriptorType::Hid => 0x21,
            DescriptorType::HidReport => 0x22,
            DescriptorType::CsInterface => 0x24,
            DescriptorType::CsEndpoint => 0x25,
        }
    }
}

/// USB Standard Device Descriptor (18 bytes)
#[derive(Copy, Clone, PartialEq, Eq, Structural, Hash, Debug)]
pub struct DeviceDescriptor {
    pub bcd_usb: u16,
    pub b_device_class: u8,
    pub b_device_sub_class: u8,
    pub b_device_protocol: u8,
    pub b_max_packet_size0: u8,
    pub id_vendor: u16,
    pub id_product: u16,
    pub bcd_device: u16,
    pub i_manufacturer: u8,
    pub i_product: u8,
    pub i_serial_number: u8,
    pub b_num_configurations: u8,
}

impl DeviceDescriptor {
    pub const SIZE: usize = 18;

    /// The descriptor that 18 bytes encode: length 18, type Device, then the
    /// fields (16-bit ones little-endian).
    pub open spec fn spec_from_bytes(s: Seq<u8>) -> Option<DeviceDescriptor> {
        if s[0] != 18 || s[1] != 0x01 {
            None
        } else {
            Some(
                DeviceDescriptor {
                    bcd_usb: le16(s, 2),
                    b_device_class: s[4],
                    b_device_sub_class: s[5],
                    b_device_protocol: s[6],
                    b_max_packet_size0: s[7],
                    id_vendor: le16(s, 8),
                    id_product: le16(s, 10),
                    bcd_device: le16(s, 12),
                    i_manufacturer: s[14],
                    i_product: s[15],
                    i_serial_number: s[16],
                    b_num_configurations: s[17],
                },
            )
        }
    }

    /// The 18 bytes that encode the descriptor.
    pub open spec fn spec_to_bytes(self) -> Seq<u8> {
        seq![
            18u8,
            0x01u8,
            (self.bcd_usb % 256) as u8,
            (self.bcd_usb / 256) as u8,
            self.b_device_class,
            self.b_device_sub_class,
            self.b_device_protocol,
            self.b_max_packet_size0,
            (self.id_vendor % 256) as u8,
            (self.id_vendor / 256) as u8,
            (self.id_product % 256) as u8,
            (self.id_product / 256) as u8,
            (self.bcd_device % 256) as u8,
            (self.bcd_device / 256) as u8,
            self.i_manufacturer,
            self.i_product,
            self.i_serial_number,
            self.b_num_configurations,
        ]
    }

    pub fn from_bytes(bytes: &[u8; 18]) -> (r: Option<Self>)
        ensures
            r == Self::spec_from_bytes(bytes@),
    {
        if bytes[0] != 18 || bytes[1] != DescriptorType::Device.to_u8() {
            return None;
        }
        Some(
            DeviceDescriptor {
                bcd_usb: read_le_u16(bytes, 2),
                b_device_class: bytes[4],
                b_device_sub_class: bytes[5],
                b_device_protocol: bytes[6],
                b_max_packet_size0: bytes[7],
                id_vendor: read_le_u16(bytes, 8),
                id_product: read_le_u16(bytes, 10),
                bcd_device: read_le_u16(bytes, 12),
                i_manufacturer: bytes[14],
                i_product: bytes[15],
                i_serial_number: bytes[16],
                b_num_configurations: bytes[17],
            },
        )
    }

    pub fn to_bytes(&self, bytes: &mut [u8; 18])
        ensures
            final(bytes)@ == self.spec_to_bytes(),
    {
        bytes[0] = 18;
        bytes[1] = DescriptorType::Device.to_u8();
        write_le_u16(bytes, 2, self.bcd_usb);
        bytes[4] = self.b_device_class;
        bytes[5] = self.b_device_sub_class;
        bytes[6] = self.b_device_protocol;
        bytes[7] = self.b_max_packet_size0;
        write_le_u16(bytes, 8, self.id_vendor);
        write_le_u16(bytes, 10, self.id_product);
        write_le_u16(bytes, 12, self.bcd_device);
        bytes[14] = self.i_manufacturer;
        bytes[15] = self.i_product;
        bytes[16] = self.i_serial_number;
        bytes[17] = self.b_num_configurations;
        assert(bytes@ =~= self.spec_to_bytes());
    }
}

/// USB Configuration Descriptor (9 bytes)
#[derive(Copy, Clone, PartialEq, Eq, Structural, Hash, Debug)]
pub struct ConfigurationDescriptor {
    pub w_total_length: u16,
    pub b_num_interfaces: u8,
    pub b_configuration_value: u8,
    pub i_configuration: u8,
    pub bm_attributes: u8,
    /// in 2mA units (USB 2.0)
    pub b_max_power: u8,
}

impl ConfigurationDescriptor {
    pub const SIZE: usize = 9;

    /// The descriptor at the start of `s`: at least 9 bytes, length 9, type
    /// Configuration.
    pub open spec fn spec_from_bytes(s: Seq<u8>) -> Option<ConfigurationDescriptor> {
        if s.len() < 9 || s[0] != 9 || s[1] != 0x02 {
            None
        } else {
            Some(
                ConfigurationDescriptor {
                    w_total_length: le16(s, 2),
                    b_num_interfaces: s[4],
                    b_configuration_value: s[5],
                    i_configuration: s[6],
                    bm_attributes: s[7],
                    b_max_power: s[8],
                },
            )
        }
    }

    /// The 9 bytes that encode the descriptor.
    pub open spec fn spec_to_bytes(self) -> Seq<u8> {
        seq![
            9u8,
            0x02u8,
            (self.w_total_length % 256) as u8,
            (self.w_total_length / 256) as u8,
            self.b_num_interfaces,
            self.b_configuration_value,
            self.i_configuration,
            self.bm_attributes,
            self.b_max_power,
        ]
    }

    pub fn from_bytes(bytes: &[u8]) -> (r: Option<Self>)
        ensures
            r == Self::spec_from_bytes(bytes@),
    {
        if bytes.len() < 9 || bytes[0] != 9 || bytes[1] != DescriptorType::Configuration.to_u8() {
            return None;
        }
        Some(
            ConfigurationDescriptor {
                w_total_length: read_le_u16(bytes, 2),
                b_num_interfaces: bytes[4],
                b_configuration_value: bytes[5],
                i_configuration: bytes[6],
                bm_attributes: bytes[7],
                b_max_power: bytes[8],
            },
        )
    }

    pub fn to_bytes(&self, bytes: &mut [u8; 9])
        ensures
            final(bytes)@ == self.spec_to_bytes(),
    {
        bytes[0] = 9;
        bytes[1] = DescriptorType::Configuration.to_u8();
        write_le_u16(bytes, 2, self.w_total_length);
        bytes[4] = self.b_num_interfaces;
        bytes[5] = self.b_configuration_value;
        bytes[6] = self.i_configuration;
        bytes[7] = self.bm_attributes;
        bytes[8] = self.b_max_power;
        assert(bytes@ =~= self.spec_to_bytes());
    }
}

/// USB Interface Descriptor (9 bytes)
#[derive(Copy, Clone, PartialEq, Eq, Structural, Hash, Debug)]
pub struct InterfaceDescriptor {
    pub b_interface_number: u8,
    pub b_alternate_setting: u8,
    pub b_num_endpoints: u8,
    pub b_interface_class: u8,
    pub b_interface_sub_class: u8,
    pub b_interface_protocol: u8,
    pub i_interface: u8,
}

impl InterfaceDescriptor {
    pub const SIZE: usize = 9;

    /// The descriptor at the start of `s`: at least 9 bytes, length 9, type Interface.
    pub open spec fn spec_from_bytes(s: Seq<u8>) -> Option<InterfaceDescriptor> {
        if s.len() < 9 || s[0] != 9 || s[1] != 0x04 {
            None
        } else {
            Some(
                InterfaceDescriptor {
                    b_interface_number: s[2],
                    b_alternate_setting: s[3],
                    b_num_endpoints: s[4],
                    b_interface_class: s[5],
                    b_interface_sub_class: s[6],
                    b_interface_protocol: s[7],
                    i_interface: s[8],
                },
            )
        }
    }

    /// The 9 bytes that encode the descriptor.
    pub open spec fn spec_to_bytes(self) -> Seq<u8> {
        seq![
            9u8,
            0x04u8,
            self.b_interface_number,
            self.b_alternate_setting,
            self.b_num_endpoints,
            self.b_interface_class,
            self.b_interface_sub_class,
            self.b_interface_protocol,
            self.i_interface,
        ]
    }

    pub fn from_bytes(bytes: &[u8]) -> (r: Option<Self>)
        ensures
            r == Self::spec_from_bytes(bytes@),
    {
        if bytes.len() < 9 || bytes[0] != 9 || bytes[1] != DescriptorType::Interface.to_u8() {
            return None;
        }
        Some(
            InterfaceDescriptor {
                b_interface_number: bytes[2],
                b_alternate_setting: bytes[3],
                b_num_endpoints: bytes[4],
                b_interface_class: bytes[5],
                b_interface_sub_class: bytes[6],
                b_interface_protocol: bytes[7],
                i_interface: bytes[8],
            },
        )
    }

    pub fn to_bytes(&self, bytes: &mut [u8; 9])
        ensures
            final(bytes)@ == self.spec_to_bytes(),
    {
        bytes[0] = 9;
        bytes[1] = DescriptorType::Interface.to_u8();
        bytes[2] = self.b_interface_number;
        bytes[3] = self.b_alternate_setting;
        bytes[4] = self.b_num_endpoints;
        bytes[5] = self.b_interface_class;
        bytes[6] = self.b_interface_sub_class;
        bytes[7] = self.b_interface_protocol;
        bytes[8] = self.i_interface;
        assert(bytes@ =~= self.spec_to_bytes());
    }
}

/// USB Endpoint Descriptor (7 bytes)
#[derive(Copy, Clone, PartialEq, Eq, Structural, Hash, Debug)]
pub struct EndpointDescriptor {
    pub b_endpoint_address: u8,
    pub bm_attributes: u8,
    pub w_max_packet_size: u16,
    pub b_interval: u8,
}

impl EndpointDescriptor {
    pub const SIZE: usize = 7;

    /// The descriptor at the start of `s`: at least 7 bytes, length 7, type Endpoint.
    pub open spec fn spec_from_bytes(s: Seq<u8>) -> Option<EndpointDescriptor> {
        if s.len() < 7 || s[0] != 7 || s[1] != 0x05 {
            None
        } else {
            Some(
                EndpointDescriptor {
                    b_endpoint_address: s[2],
                    bm_attributes: s[3],
                    w_max_packet_size: le16(s, 4),
                    b_interval: s[6],
                },
            )
        }
    }

    /// The 7 bytes that encode the descriptor.
    pub open spec fn spec_to_bytes(self) -> Seq<u8> {
        seq![
            7u8,
            0x05u8,
            self.b_endpoint_address,
            self.bm_attributes,
            (self.w_max_packet_size % 256) as u8,
            (self.w_max_packet_size / 256) as u8,
            self.b_interval,
        ]
    }

    pub fn from_bytes(bytes: &[u8]) -> (r: Option<Self>)
        ensures
            r == Self::spec_from_bytes(bytes@),
    {
        if bytes.len() < 7 || bytes[0] != 7 || bytes[1] != DescriptorType::Endpoint.to_u8() {
            return None;
        }
        Some(
            EndpointDescriptor {
                b_endpoint_address: bytes[2],
                bm_attributes: bytes[3],
                w_max_packet_size: read_le_u16(bytes, 4),
                b_interval: bytes[6],
            },
        )
    }

    pub fn to_bytes(&self, bytes: &mut [u8; 7])
        ensures
            final(bytes)@ == self.spec_to_bytes(),
    {
        bytes[0] = 7;
        bytes[1] = DescriptorType::Endpoint.to_u8();
        bytes[2] = self.b_endpoint_address;
        bytes[3] = self.bm_attributes;
        write_le_u16(bytes, 4, self.w_max_packet_size);
        bytes[6] = self.b_interval;
        assert(bytes@ =~= self.spec_to_bytes());
    }
}

/// Interface Association Descriptor (IAD, 8 bytes)
#[derive(Copy, Clone, PartialEq, Eq, Structural, Hash, Debug)]
pub struct InterfaceAssociationDescriptor {
    pub b_first_interface: u8,
    pub b_interface_count: u8,
    pub b_function_class: u8,
    pub b_function_sub_class: u8,
    pub b_function_protocol: u8,
    pub i_function: u8,
}

impl InterfaceAssociationDescriptor {
    pub const SIZE: usize = 8;

    /// The descriptor at the start of `s`: at least 8 bytes, length 8, type
    /// Interface Association.
    pub open spec fn spec_from_bytes(s: Seq<u8>) -> Option<InterfaceAssociationDescriptor> {
        if s.len() < 8 || s[0] != 8 || s[1] != 0x0B {
            None
        } else {
            Some(
                InterfaceAssociationDescriptor {
                    b_first_interface: s[2],
                    b_interface_count: s[3],
                    b_function_class: s[4],
                    b_function_sub_class: s[5],
                    b_function_protocol: s[6],
                    i_function: s[7],
                },
            )
        }
    }

    /// The 8 bytes that encode the descriptor.
    pub open spec fn spec_to_bytes(self) -> Seq<u8> {
        seq![
            8u8,
            0x0Bu8,
            self.b_first_interface,
            self.b_interface_count,
            self.b_function_class,
            self.b_function_sub_class,
            self.b_function_protocol,
            self.i_function,
        ]
    }

    pub fn from_bytes(bytes: &[u8]) -> (r: Option<Self>)
        ensures
            r == Self::spec_from_bytes(bytes@),
    {
        if bytes.len() < 8 || bytes[0] != 8 || bytes[1]
            != DescriptorType::InterfaceAssociation.to_u8() {
            return None;
        }
        Some(
            InterfaceAssociationDescriptor {
                b_first_interface: bytes[2],
                b_interface_count: bytes[3],
                b_function_class: bytes[4],
                b_function_sub_class: bytes[5],
                b_function_protocol: bytes[6],
                i_function: bytes[7],
            },
        )
    }

    pub fn to_bytes(&self, bytes: &mut [u8; 8])
        ensures
            final(bytes)@ == self.spec_to_bytes(),
    {
        bytes[0] = 8;
        bytes[1] = DescriptorType::InterfaceAssociation.to_u8();
        bytes[2] = self.b_first_interface;
        bytes[3] = self.b_interface_count;
        bytes[4] = self.b_function_class;
        bytes[5] = self.b_function_sub_class;
        bytes[6] = self.b_function_protocol;
        bytes[7] = self.i_function;
        assert(bytes@ =~= self.spec_to_bytes());
    }
}

/// A device descriptor decodes back from its encoding.
pub proof fn lemma_device_descriptor_roundtrip(d: DeviceDescriptor)
    ensures
        DeviceDescriptor::spec_from_bytes(d.spec_to_bytes()) == Some(d),
{
}

/// 18 bytes that decode to a device descriptor are its encoding.
pub proof fn lemma_device_descriptor_bytes_roundtrip(s: Seq<u8>)
    requires
        s.len() == 18,
        DeviceDescriptor::spec_from_bytes(s) is Some,
    ensures
        DeviceDescriptor::spec_from_bytes(s)->0.spec_to_bytes() == s,
{
    assert(DeviceDescriptor::spec_from_bytes(s)->0.spec_to_bytes() =~= s);
}

/// A configuration descriptor decodes back from its encoding.
pub proof fn lemma_configuration_descriptor_roundtrip(d: ConfigurationDescriptor)
    ensures
        ConfigurationDescriptor::spec_from_bytes(d.spec_to_bytes()) == Some(d),
{
}

/// Bytes that start with a configuration descriptor start with its encoding.
pub proof fn lemma_configuration_descriptor_bytes_roundtrip(s: Seq<u8>)
    requires
        ConfigurationDescriptor::spec_from_bytes(s) is Some,
    ensures
        ConfigurationDescriptor::spec_from_bytes(s)->0.spec_to_bytes() == s.take(9),
{
    assert(ConfigurationDescriptor::spec_from_bytes(s)->0.spec_to_bytes() =~= s.take(9));
}

/// An interface descriptor decodes back from its encoding.
pub proof fn lemma_interface_descriptor_roundtrip(d: InterfaceDescriptor)
    ensures
        InterfaceDescriptor::spec_from_bytes(d.spec_to_bytes()) == Some(d),
{
}

/// Bytes that start with an interface descriptor start with its encoding.
pub proof fn lemma_interface_descriptor_bytes_roundtrip(s: Seq<u8>)
    requires
        InterfaceDescriptor::spec_from_bytes(s) is Some,
    ensures
        InterfaceDescriptor::spec_from_bytes(s)->0.spec_to_bytes() == s.take(9),
{
    assert(InterfaceDescriptor::spec_from_bytes(s)->0.spec_to_bytes() =~= s.take(9));
}

/// An endpoint descriptor decodes back from its encoding.
pub proof fn lemma_endpoint_descriptor_roundtrip(d: EndpointDescriptor)
    ensures
        EndpointDescriptor::spec_from_bytes(d.spec_to_bytes()) == Some(d),
{
}

/// Bytes that start with an endpoint descriptor start with its encoding.
pub proof fn lemma_endpoint_descriptor_bytes_roundtrip(s: Seq<u8>)
    requires
        EndpointDescriptor::spec_from_bytes(s) is Some,
    ensures
        EndpointDescriptor::spec_from_bytes(s)->0.spec_to_bytes() == s.take(7),
{
    assert(EndpointDescriptor::spec_from_bytes(s)->0.spec_to_bytes() =~= s.take(7));
}

/// An interface association descriptor decodes back from its encoding.
pub proof fn lemma_iad_roundtrip(d: InterfaceAssociationDescriptor)
    ensures
        InterfaceAssociationDescriptor::spec_from_bytes(d.spec_to_bytes()) == Some(d),
{
}

/// Bytes that start with an interface association descriptor start with its encoding.
pub proof fn lemma_iad_bytes_roundtrip(s: Seq<u8>)
    requires
        InterfaceAssociationDescriptor::spec_from_bytes(s) is Some,
    ensures
        InterfaceAssociationDescriptor::spec_from_bytes(s)->0.spec_to_bytes() == s.take(8),
{
    assert(InterfaceAssociationDescriptor::spec_from_bytes(s)->0.spec_to_bytes() =~= s.take(8));
}


/// The descriptor type codes (USB 2.0 Table 9-5 and the class and IAD codes):
/// each encodes to its code.
pub proof fn lemma_descriptor_type_codes()
    ensures
        DescriptorType::Device.spec_to_u8() == 0x01,
        DescriptorType::Configuration.spec_to_u8() == 0x02,
        DescriptorType::String.spec_to_u8() == 0x03,
        DescriptorType::Interface.spec_to_u8() == 0x04,
        DescriptorType::Endpoint.spec_to_u8() == 0x05,
        DescriptorType::DeviceQualifier.spec_to_u8() == 0x06,
        DescriptorType::OtherSpeedConfiguration.spec_to_u8() == 0x07,
        DescriptorType::InterfacePower.spec_to_u8() == 0x08,
        DescriptorType::Otg.spec_to_u8() == 0x09,
        DescriptorType::Debug.spec_to_u8() == 0x0A,
        DescriptorType::InterfaceAssociation.spec_to_u8() == 0x0B,
        DescriptorType::Bos.spec_to_u8() == 0x0F,
        DescriptorType::DeviceCapability.spec_to_u8() == 0x10,
        DescriptorType::Hid.spec_to_u8() == 0x21,
        DescriptorType::HidReport.spec_to_u8() == 0x22,
        DescriptorType::CsInterface.spec_to_u8() == 0x24,
        DescriptorType::CsEndpoint.spec_to_u8() == 0x25,
{
}


/// The fields of a device descriptor sit at the offsets of USB 2.0 Table 9-8,
/// 16-bit fields little-endian: bLength 18 and bDescriptorType 1 at bytes 0
/// and 1, bcdUSB at 2, class, subclass and protocol at 4, 5 and 6,
/// bMaxPacketSize0 at 7, idVendor at 8, idProduct at 10, bcdDevice at 12, the
/// manufacturer, product and serial string indices at 14, 15 and 16, and
/// bNumConfigurations at 17. Decoding reads each field there and succeeds
/// exactly when the first two bytes are 18 and 1; encoding writes each there.
pub proof fn lemma_device_descriptor_layout(s: Seq<u8>, d: DeviceDescriptor)
    requires
        s.len() == 18,
    ensures
        DeviceDescriptor::spec_from_bytes(s) is Some <==> (s[0] == 18 && s[1] == 1),
        DeviceDescriptor::spec_from_bytes(s) matches Some(p) ==> p.bcd_usb == s[2] + 256 * s[3]
            && p.b_device_class == s[4] && p.b_device_sub_class == s[5] && p.b_device_protocol
            == s[6] && p.b_max_packet_size0 == s[7] && p.id_vendor == s[8] + 256 * s[9]
            && p.id_product == s[10] + 256 * s[11] && p.bcd_device == s[12] + 256 * s[13]
            && p.i_manufacturer == s[14] && p.i_product == s[15] && p.i_serial_number == s[16]
            && p.b_num_configurations == s[17],
        d.spec_to_bytes().len() == 18,
        d.spec_to_bytes()[0] == 18 && d.spec_to_bytes()[1] == 1,
        d.spec_to_bytes()[2] + 256 * d.spec_to_bytes()[3] == d.bcd_usb,
        d.spec_to_bytes()[4] == d.b_device_class && d.spec_to_bytes()[5] == d.b_device_sub_class
            && d.spec_to_bytes()[6] == d.b_device_protocol && d.spec_to_bytes()[7]
            == d.b_max_packet_size0,
        d.spec_to_bytes()[8] + 256 * d.spec_to_bytes()[9] == d.id_vendor,
        d.spec_to_bytes()[10] + 256 * d.spec_to_bytes()[11] == d.id_product,
        d.spec_to_bytes()[12] + 256 * d.spec_to_bytes()[13] == d.bcd_device,
        d.spec_to_bytes()[14] == d.i_manufacturer && d.spec_to_bytes()[15] == d.i_product
            && d.spec_to_bytes()[16] == d.i_serial_number && d.spec_to_bytes()[17]
            == d.b_num_configurations,
{
}

/// The fields of a configuration descriptor sit at the offsets of USB 2.0
/// Table 9-10: bLength 9 and bDescriptorType 2 at bytes 0 and 1,
/// wTotalLength little-endian at 2, bNumInterfaces at 4, bConfigurationValue at
/// 5, iConfiguration at 6, bmAttributes at 7 and bMaxPower at 8. Decoding needs
/// at least 9 bytes starting 9, 2 and reads each field there; encoding writes
/// each there.
pub proof fn lemma_configuration_descriptor_layout(s: Seq<u8>, d: ConfigurationDescriptor)
    ensures
        ConfigurationDescriptor::spec_from_bytes(s) is Some <==> (s.len() >= 9 && s[0] == 9 && s[1]
            == 2),
        ConfigurationDescriptor::spec_from_bytes(s) matches Some(p) ==> p.w_total_length == s[2]
            + 256 * s[3] && p.b_num_interfaces == s[4] && p.b_configuration_value == s[5]
            && p.i_configuration == s[6] && p.bm_attributes == s[7] && p.b_max_power == s[8],
        d.spec_to_bytes().len() == 9,
        d.spec_to_bytes()[0] == 9 && d.spec_to_bytes()[1] == 2,
        d.spec_to_bytes()[2] + 256 * d.spec_to_bytes()[3] == d.w_total_length,
        d.spec_to_bytes()[4] == d.b_num_interfaces && d.spec_to_bytes()[5]
            == d.b_configuration_value && d.spec_to_bytes()[6] == d.i_configuration
            && d.spec_to_bytes()[7] == d.bm_attributes && d.spec_to_bytes()[8] == d.b_max_power,
{
}

/// The fields of an interface descriptor sit at the offsets of USB 2.0 Table
/// 9-12: bLength 9 and bDescriptorType 4 at bytes 0 and 1, then
/// bInterfaceNumber, bAlternateSetting, bNumEndpoints, bInterfaceClass,
/// bInterfaceSubClass, bInterfaceProtocol and iInterface at bytes 2 to 8.
pub proof fn lemma_interface_descriptor_layout(s: Seq<u8>, d: InterfaceDescriptor)
    ensures
        InterfaceDescriptor::spec_from_bytes(s) is Some <==> (s.len() >= 9 && s[0] == 9 && s[1]
            == 4),
        InterfaceDescriptor::spec_from_bytes(s) matches Some(p) ==> p.b_interface_number == s[2]
            && p.b_alternate_setting == s[3] && p.b_num_endpoints == s[4] && p.b_interface_class
            == s[5] && p.b_interface_sub_class == s[6] && p.b_interface_protocol == s[7]
            && p.i_interface == s[8],
        d.spec_to_bytes().len() == 9,
        d.spec_to_bytes()[0] == 9 && d.spec_to_bytes()[1] == 4,
        d.spec_to_bytes()[2] == d.b_interface_number && d.spec_to_bytes()[3]
            == d.b_alternate_setting && d.spec_to_bytes()[4] == d.b_num_endpoints
            && d.spec_to_bytes()[5] == d.b_interface_class && d.spec_to_bytes()[6]
            == d.b_interface_sub_class && d.spec_to_bytes()[7] == d.b_interface_protocol
            && d.spec_to_bytes()[8] == d.i_interface,
{
}

/// The fields of an endpoint descriptor sit at the offsets of USB 2.0 Table
/// 9-13: bLength 7 and bDescriptorType 5 at bytes 0 and 1, bEndpointAddress at
/// 2, bmAttributes at 3, wMaxPacketSize little-endian at 4 and bInterval at 6.
pub proof fn lemma_endpoint_descriptor_layout(s: Seq<u8>, d: EndpointDescriptor)
    ensures
        EndpointDescriptor::spec_from_bytes(s) is Some <==> (s.len() >= 7 && s[0] == 7 && s[1]
            == 5),
        EndpointDescriptor::spec_from_bytes(s) matches Some(p) ==> p.b_endpoint_address == s[2]
            && p.bm_attributes == s[3] && p.w_max_packet_size == s[4] + 256 * s[5] && p.b_interval
            == s[6],
        d.spec_to_bytes().len() == 7,
        d.spec_to_bytes()[0] == 7 && d.spec_to_bytes()[1] == 5,
        d.spec_to_bytes()[2] == d.b_endpoint_address && d.spec_to_bytes()[3] == d.bm_attributes,
        d.spec_to_bytes()[4] + 256 * d.spec_to_bytes()[5] == d.w_max_packet_size,
        d.spec_to_bytes()[6] == d.b_interval,
{
}

/// The fields of an interface association descriptor sit at the offsets of
/// the IAD ECN: bLength 8 and bDescriptorType 0x0B at bytes 0 and 1, then
/// bFirstInterface, bInterfaceCount, bFunctionClass, bFunctionSubClass,
/// bFunctionProtocol and iFunction at bytes 2 to 7.
pub proof fn lemma_iad_layout(s: Seq<u8>, d: InterfaceAssociationDescriptor)
    ensures
        InterfaceAssociationDescriptor::spec_from_bytes(s) is Some <==> (s.len() >= 8 && s[0] == 8
            && s[1] == 0x0B),
        InterfaceAssociationDescriptor::spec_from_bytes(s) matches Some(p) ==> p.b_first_interface
            == s[2] && p.b_interface_count == s[3] && p.b_function_class == s[4]
            && p.b_function_sub_class == s[5] && p.b_function_protocol == s[6] && p.i_function
            == s[7],
        d.spec_to_bytes().len() == 8,
        d.spec_to_bytes()[0] == 8 && d.spec_to_bytes()[1] == 0x0B,
        d.spec_to_bytes()[2] == d.b_first_interface && d.spec_to_bytes()[3]
            == d.b_interface_count && d.spec_to_bytes()[4] == d.b_function_class
            && d.spec_to_bytes()[5] == d.b_function_sub_class && d.spec_to_bytes()[6]
            == d.b_function_protocol && d.spec_to_bytes()[7] == d.i_function,
{
}

} // verus!
