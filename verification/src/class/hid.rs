//! USB Human Interface Device (HID) definitions and boot reports.
use vstd::prelude::*;

verus! {

#[derive(Copy, Clone, PartialEq, Eq, Structural, Hash, Debug)]
pub enum HidSubclass {
    NoSubclass,
    BootInterface,
}

impl HidSubclass {
    pub open spec fn spec_to_u8(self) -> u8 {
        match self {
            HidSubclass::NoSubclass => 0,
            HidSubclass::BootInterface => 1,
        }
    }

    /// The subclass code (0 or 1).
    #[verifier::when_used_as_spec(spec_to_u8)]
    pub fn to_u8(self) -> (r: u8)
        ensures
            r == self.spec_to_u8(),
    {
        match self {
            HidSubclass::NoSubclass => 0,
            HidSubclass::BootInterface => 1,
        }
    }
}

#[derive(Copy, Clone, PartialEq, Eq, Structural, Hash, Debug)]
pub enum HidProtocol {
    NoProtocol,
    Keyboard,
    Mouse,
}

impl HidProtocol {
    pub open spec fn spec_to_u8(self) -> u8 {
        match self {
            HidProtocol::NoProtocol => 0,
            HidProtocol::Keyboard => 1,
            HidProtocol::Mouse => 2,
        }
    }

    /// The boot protocol code (0 to 2).
    #[verifier::when_used_as_spec(spec_to_u8)]
    pub fn to_u8(self) -> (r: u8)
        ensures
            r == self.spec_to_u8(),
    {
        match self {
            HidProtocol::NoProtocol => 0,
            HidProtocol::Keyboard => 1,
            HidProtocol::Mouse => 2,
        }
    }
}

#[derive(Copy, Clone, PartialEq, Eq, Structural, Hash, Debug)]
pub enum HidRequest {
    GetReport,
    GetIdle,
    GetProtocol,
    SetReport,
    SetIdle,
    SetProtocol,
}

impl HidRequest {
    pub open spec fn spec_to_u8(self) -> u8 {
        match self {
            HidRequest::GetReport => 0x01,
            HidRequest::GetIdle => 0x02,
            HidRequest::GetProtocol => 0x03,
            HidRequest::SetReport => 0x09,
            HidRequest::SetIdle => 0x0A,
            HidRequest::SetProtocol => 0x0B,
        }
    }

    /// The `bRequest` code of the class request.
    #[verifier::when_used_as_spec(spec_to_u8)]
    pub fn to_u8(self) -> (r: u8)
        ensures
            r == self.spec_to_u8(),
    {
        match self {
            HidRequest::GetReport => 0x01,
            HidRequest::GetIdle => 0x02,
            HidRequest::GetProtocol => 0x03,
            HidRequest::SetReport => 0x09,
            HidRequest::SetIdle => 0x0A,
            HidRequest::SetProtocol => 0x0B,
        }
    }

    /// The HID class request with code `val`, if there is one.
    pub open spec fn spec_from_u8(val: u8) -> Option<HidRequest> {
        match val {
            0x01 => Some(HidRequest::GetReport),
            0x02 => Some(HidRequest::GetIdle),
            0x03 => Some(HidRequest::GetProtocol),
            0x09 => Some(HidRequest::SetReport),
            0x0A => Some(HidRequest::SetIdle),
            0x0B => Some(HidRequest::SetProtocol),
            _ => None,
        }
    }
}

impl TryFrom<u8> for HidRequest {
    type Error = ();

    fn try_from(val: u8) -> (r: Result<Self, ()>) {
        match val {
            0x01 => Ok(HidRequest::GetReport),
            0x02 => Ok(HidRequest::GetIdle),
            0x03 => Ok(HidRequest::GetProtocol),
            0x09 => Ok(HidRequest::SetReport),
            0x0A => Ok(HidRequest::SetIdle),
            0x0B => Ok(HidRequest::SetProtocol),
            _ => Err(()),
        }
    }
}

impl vstd::std_specs::convert::TryFromSpecImpl<u8> for HidRequest {
    open spec fn obeys_try_from_spec() -> bool {
        true
    }

    open spec fn try_from_spec(v: u8) -> Result<Self, ()> {
        match HidRequest::spec_from_u8(v) {
            Some(r) => Ok(r),
            None => Err(()),
        }
    }
}

#[derive(Copy, Clone, PartialEq, Eq, Structural, Hash, Debug)]
pub enum HidReportType {
    Input,
    Output,
    Feature,
}

impl HidReportType {
    pub open spec fn spec_to_u8(self) -> u8 {
        match self {
            HidReportType::Input => 1,
            HidReportType::Output => 2,
            HidReportType::Feature => 3,
        }
    }

    /// The report type code (1 to 3).
    #[verifier::when_used_as_spec(spec_to_u8)]
    pub fn to_u8(self) -> (r: u8)
        ensures
            r == self.spec_to_u8(),
    {
        match self {
            HidReportType::Input => 1,
            HidReportType::Output => 2,
            HidReportType::Feature => 3,
        }
    }
}

/// Standard 8-byte HID Boot Keyboard Report
#[derive(Copy, Clone, Default, Debug, PartialEq, Eq)]
pub struct KeyboardReport {
    pub modifier: u8,
    pub reserved: u8,
    pub keycodes: [u8; 6],
}

/// The 8 bytes of a boot keyboard report: modifier, reserved, six key codes.
pub open spec fn keyboard_report_bytes(modifier: u8, reserved: u8, keycodes: Seq<u8>) -> Seq<u8> {
    seq![modifier, reserved] + keycodes
}

impl KeyboardReport {
    pub fn to_bytes(&self, bytes: &mut [u8; 8])
        ensures
            final(bytes)@ == keyboard_report_bytes(self.modifier, self.reserved, self.keycodes@),
    {
        bytes[0] = self.modifier;
        bytes[1] = self.reserved;
        let mut i: usize = 0;
        while i < 6
            invariant
                i <= 6,
                bytes@[0] == self.modifier,
                bytes@[1] == self.reserved,
                forall|j: int| 0 <= j < i ==> bytes@[2 + j] == self.keycodes@[j],
            decreases 6 - i,
        {
            bytes[2 + i] = self.keycodes[i];
            i = i + 1;
        }
        assert(bytes@ =~= keyboard_report_bytes(self.modifier, self.reserved, self.keycodes@));
    }

    pub fn from_bytes(bytes: &[u8; 8]) -> (r: Self)
        ensures
            r.modifier == bytes@[0],
            r.reserved == bytes@[1],
            r.keycodes@ == bytes@.subrange(2, 8),
    {
        let mut keycodes = [0u8; 6];
        let mut i: usize = 0;
        while i < 6
            invariant
                i <= 6,
                forall|j: int| 0 <= j < i ==> keycodes@[j] == bytes@[2 + j],
            decreases 6 - i,
        {
            keycodes[i] = bytes[2 + i];
            i = i + 1;
        }
        assert(keycodes@ =~= bytes@.subrange(2, 8));
        KeyboardReport { modifier: bytes[0], reserved: bytes[1], keycodes }
    }
}

/// The bytes of a keyboard report decode back to its fields, and 8 bytes are
/// the encoding of the report they decode to.
pub proof fn lemma_keyboard_report_roundtrip(modifier: u8, reserved: u8, keycodes: Seq<u8>, s: Seq<u8>)
    requires
        keycodes.len() == 6,
        s.len() == 8,
    ensures
        ({
            let b = keyboard_report_bytes(modifier, reserved, keycodes);
            b[0] == modifier && b[1] == reserved && b.subrange(2, 8) == keycodes
        }),
        keyboard_report_bytes(s[0], s[1], s.subrange(2, 8)) == s,
{
    assert(keyboard_report_bytes(modifier, reserved, keycodes).subrange(2, 8) =~= keycodes);
    assert(keyboard_report_bytes(s[0], s[1], s.subrange(2, 8)) =~= s);
}

/// Standard 4-byte HID Boot Mouse Report (buttons, X, Y, wheel)
#[derive(Copy, Clone, Default, Debug, PartialEq, Eq, Structural)]
pub struct MouseReport {
    pub buttons: u8,
    pub x: i8,
    pub y: i8,
    pub wheel: i8,
}

impl MouseReport {
    /// The 4 bytes of the report (the signed fields in two's complement).
    pub open spec fn spec_to_bytes(self) -> Seq<u8> {
        seq![self.buttons, self.x as u8, self.y as u8, self.wheel as u8]
    }

    /// The report that 4 bytes encode.
    pub open spec fn spec_from_bytes(s: Seq<u8>) -> MouseReport {
        MouseReport { buttons: s[0], x: s[1] as i8, y: s[2] as i8, wheel: s[3] as i8 }
    }

    pub fn to_bytes(&self, bytes: &mut [u8; 4])
        ensures
            final(bytes)@ == self.spec_to_bytes(),
    {
        bytes[0] = self.buttons;
        bytes[1] = self.x as u8;
        bytes[2] = self.y as u8;
        bytes[3] = self.wheel as u8;
        assert(bytes@ =~= self.spec_to_bytes());
    }

    pub fn from_bytes(bytes: &[u8; 4]) -> (r: Self)
        ensures
            r == Self::spec_from_bytes(bytes@),
    {
        MouseReport {
            buttons: bytes[0],
            x: bytes[1] as i8,
            y: bytes[2] as i8,
            wheel: bytes[3] as i8,
        }
    }
}

/// A mouse report decodes back from its encoding, and 4 bytes are the
/// encoding of the report they decode to.
pub proof fn lemma_mouse_report_roundtrip(m: MouseReport, s: Seq<u8>)
    requires
        s.len() == 4,
    ensures
        MouseReport::spec_from_bytes(m.spec_to_bytes()) == m,
        MouseReport::spec_from_bytes(s).spec_to_bytes() == s,
{
    let (x, y, w) = (m.x, m.y, m.wheel);
    assert((x as u8) as i8 == x) by (bit_vector);
    assert((y as u8) as i8 == y) by (bit_vector);
    assert((w as u8) as i8 == w) by (bit_vector);
    let (b1, b2, b3) = (s[1], s[2], s[3]);
    assert((b1 as i8) as u8 == b1) by (bit_vector);
    assert((b2 as i8) as u8 == b2) by (bit_vector);
    assert((b3 as i8) as u8 == b3) by (bit_vector);
    assert(MouseReport::spec_from_bytes(s).spec_to_bytes() =~= s);
}


/// The HID subclass codes: each encodes to its code.
pub proof fn lemma_hid_subclass_codes()
    ensures
        HidSubclass::NoSubclass.spec_to_u8() == 0,
        HidSubclass::BootInterface.spec_to_u8() == 1,
{
}

/// The HID boot protocol codes: each encodes to its code.
pub proof fn lemma_hid_protocol_codes()
    ensures
        HidProtocol::NoProtocol.spec_to_u8() == 0,
        HidProtocol::Keyboard.spec_to_u8() == 1,
        HidProtocol::Mouse.spec_to_u8() == 2,
{
}

/// The HID class request codes (HID 1.11 section 7.2): each encodes to its
/// code, each code decodes to it, and a byte that decodes at all is the code of
/// what it decodes to.
pub proof fn lemma_hid_request_codes(b: u8)
    ensures
        HidRequest::GetReport.spec_to_u8() == 0x01,
        HidRequest::GetIdle.spec_to_u8() == 0x02,
        HidRequest::GetProtocol.spec_to_u8() == 0x03,
        HidRequest::SetReport.spec_to_u8() == 0x09,
        HidRequest::SetIdle.spec_to_u8() == 0x0A,
        HidRequest::SetProtocol.spec_to_u8() == 0x0B,
        HidRequest::spec_from_u8(0x01) == Some(HidRequest::GetReport),
        HidRequest::spec_from_u8(0x02) == Some(HidRequest::GetIdle),
        HidRequest::spec_from_u8(0x03) == Some(HidRequest::GetProtocol),
        HidRequest::spec_from_u8(0x09) == Some(HidRequest::SetReport),
        HidRequest::spec_from_u8(0x0A) == Some(HidRequest::SetIdle),
        HidRequest::spec_from_u8(0x0B) == Some(HidRequest::SetProtocol),
        HidRequest::spec_from_u8(b) matches Some(r) ==> r.spec_to_u8() == b,
{
}

/// The HID report type codes: each encodes to its code.
pub proof fn lemma_hid_report_type_codes()
    ensures
        HidReportType::Input.spec_to_u8() == 1,
        HidReportType::Output.spec_to_u8() == 2,
        HidReportType::Feature.spec_to_u8() == 3,
{
}


/// The fields of a boot mouse report sit at the offsets of HID 1.11 Appendix
/// B.2: buttons at byte 0, then X, Y and the wheel at 1, 2 and 3 as signed
/// bytes in two's complement, both when decoding and when encoding.
pub proof fn lemma_mouse_report_layout(s: Seq<u8>, m: MouseReport)
    requires
        s.len() == 4,
    ensures
        MouseReport::spec_from_bytes(s).buttons == s[0],
        MouseReport::spec_from_bytes(s).x == (if s[1] < 128 { s[1] as int } else { s[1] - 256 }),
        MouseReport::spec_from_bytes(s).y == (if s[2] < 128 { s[2] as int } else { s[2] - 256 }),
        MouseReport::spec_from_bytes(s).wheel == (if s[3] < 128 { s[3] as int } else { s[3] - 256 }),
        m.spec_to_bytes().len() == 4,
        m.spec_to_bytes()[0] == m.buttons,
        m.spec_to_bytes()[1] == (if m.x >= 0 { m.x as int } else { m.x + 256 }),
        m.spec_to_bytes()[2] == (if m.y >= 0 { m.y as int } else { m.y + 256 }),
        m.spec_to_bytes()[3] == (if m.wheel >= 0 { m.wheel as int } else { m.wheel + 256 }),
{
    let (a, b, c) = (s[1], s[2], s[3]);
    assert((a as i8) == (if a < 128 { a as int } else { a - 256 })) by (bit_vector);
    assert((b as i8) == (if b < 128 { b as int } else { b - 256 })) by (bit_vector);
    assert((c as i8) == (if c < 128 { c as int } else { c - 256 })) by (bit_vector);
    let (x, y, w) = (m.x, m.y, m.wheel);
    assert((x as u8) == (if x >= 0 { x as int } else { x + 256 })) by (bit_vector);
    assert((y as u8) == (if y >= 0 { y as int } else { y + 256 })) by (bit_vector);
    assert((w as u8) == (if w >= 0 { w as int } else { w + 256 })) by (bit_vector);
}

} // verus!
