//! USB host: port status, attached devices and the enumeration sequence of a
//! newly attached device, as a state machine whose actions a host controller
//! driver performs.
use crate::descriptor::{DeviceDescriptor, EndpointDescriptor};
use crate::setup::{recipient_of, req_type_of, Recipient, RequestType, SetupPacket, StandardRequest};
use crate::types::{dir_of_bit7, Direction, Speed, TransferType};
use vstd::prelude::*;

verus! {

#[derive(Copy, Clone, PartialEq, Eq, Structural, Debug)]
pub enum HostError {
    BusError,
    Timeout,
    Babble,
    Stall,
    DeviceDisconnected,
    NoChannelAvailable,
    DescriptorParseError,
    BufferOverflow,
}

#[derive(Copy, Clone, PartialEq, Eq, Structural, Debug)]
pub struct PortStatus {
    pub connected: bool,
    pub speed: Speed,
    pub enabled: bool,
    pub suspended: bool,
}

/// Information about an enumerated USB device.
#[derive(Copy, Clone, Debug)]
pub struct AttachedDevice {
    pub address: u8,
    pub speed: Speed,
    pub device_desc: DeviceDescriptor,
}

/// Where the enumeration of a device stands.
#[derive(Copy, Clone, PartialEq, Eq, Structural, Debug)]
pub enum EnumPhase {
    Idle,
    /// Waiting for the root port's status.
    WaitConnect,
    /// Waiting before the next look at the port (not connected yet).
    PollDelay,
    /// Debouncing the connection.
    Debounce,
    /// Waiting for the port reset.
    Resetting,
    /// Reset recovery time.
    ResetRecovery,
    /// Waiting for the default control pipe (address 0).
    OpeningDefaultPipe,
    /// Reading the first 8 bytes of the device descriptor.
    GettingShortDescriptor,
    /// SET_ADDRESS in progress.
    SettingAddress,
    /// SET_ADDRESS recovery time.
    AddressRecovery,
    /// Waiting for the control pipe at the new address.
    OpeningAddressedPipe,
    /// Reading the full 18-byte device descriptor.
    GettingDescriptor,
}

/// What the enumeration asks of the host controller driver.
#[derive(Copy, Clone, Debug)]
pub enum HostAction {
    /// Read the root port's status; report with `on_port_status`.
    ReadPortStatus,
    /// Wait this many milliseconds; report with `on_delay_done`.
    Delay(u64),
    /// Reset the root port; report with `on_reset`.
    ResetPort,
    /// Close the open control pipe, if any, and open one to this device address
    /// with this endpoint descriptor; report with `on_pipe_opened`.
    OpenPipe(u8, EndpointDescriptor),
    /// Run this control transfer on the open pipe, its data stage in the first
    /// `length` bytes of the 18-byte descriptor buffer; report with `on_transfer`.
    Transfer(SetupPacket),
    /// The enumeration ended with this result.
    Finished(Result<AttachedDevice, HostError>),
}

/// The state of the enumeration engine.
#[verifier::ext_equal]
pub struct EnumModel {
    pub phase: EnumPhase,
    /// The address the next enumerated device gets.
    pub next_address: u8,
    /// The devices enumerated so far, in order.
    pub devices: Seq<AttachedDevice>,
    /// The speed the port reset reported.
    pub speed: Speed,
    /// The address being assigned.
    pub new_addr: u8,
    /// The device's EP0 maximum packet size.
    pub max_packet_size0: u8,
}

/// The address after `a` in the cycle 1, 2, ..., 127, 1, ...
pub open spec fn following_address(a: u8) -> u8 {
    if a >= 127 {
        1
    } else {
        (a + 1) as u8
    }
}

/// The control endpoint 0 descriptor with the given maximum packet size.
pub open spec fn ep0_descriptor(max_packet_size: u16) -> EndpointDescriptor {
    EndpointDescriptor {
        b_endpoint_address: 0,
        bm_attributes: TransferType::Control.spec_to_u8(),
        w_max_packet_size: max_packet_size,
        b_interval: 0,
    }
}

/// GET_DESCRIPTOR(Device) for `length` bytes (IN, standard, device).
pub open spec fn get_device_descriptor_request(length: u16) -> SetupPacket {
    SetupPacket { request_type: 0x80, request: 6, value: 0x0100, index: 0, length }
}

/// SET_ADDRESS to `addr` (OUT, standard, device).
pub open spec fn set_address_request(addr: u8) -> SetupPacket {
    SetupPacket { request_type: 0x00, request: 5, value: addr as u16, index: 0, length: 0 }
}

/// The state and action after the enumeration ends with `result`.
pub open spec fn finish_step(m: EnumModel, result: Result<AttachedDevice, HostError>) -> (EnumModel, HostAction) {
    (EnumModel { phase: EnumPhase::Idle, ..m }, HostAction::Finished(result))
}

/// The enumeration starts by looking at the root port.
pub open spec fn spec_start(m: EnumModel) -> (EnumModel, HostAction) {
    (EnumModel { phase: EnumPhase::WaitConnect, ..m }, HostAction::ReadPortStatus)
}

/// A connected port is debounced for 100 ms; otherwise it is looked at again after 50 ms.
pub open spec fn spec_on_port_status(m: EnumModel, status: PortStatus) -> (EnumModel, HostAction) {
    if status.connected {
        (EnumModel { phase: EnumPhase::Debounce, ..m }, HostAction::Delay(100))
    } else {
        (EnumModel { phase: EnumPhase::PollDelay, ..m }, HostAction::Delay(50))
    }
}

/// After a wait: look at the port again, reset it, or open the control pipe
/// (at address 0 with 8 bytes for a low-speed device and 64 otherwise, or at
/// the new address with the device's EP0 packet size).
pub open spec fn spec_on_delay_done(m: EnumModel) -> (EnumModel, HostAction) {
    if m.phase == EnumPhase::PollDelay {
        (EnumModel { phase: EnumPhase::WaitConnect, ..m }, HostAction::ReadPortStatus)
    } else if m.phase == EnumPhase::Debounce {
        (EnumModel { phase: EnumPhase::Resetting, ..m }, HostAction::ResetPort)
    } else if m.phase == EnumPhase::ResetRecovery {
        (
            EnumModel { phase: EnumPhase::OpeningDefaultPipe, ..m },
            HostAction::OpenPipe(0, ep0_descriptor(if m.speed == Speed::Low { 8 } else { 64 })),
        )
    } else {
        (
            EnumModel { phase: EnumPhase::OpeningAddressedPipe, ..m },
            HostAction::OpenPipe(m.new_addr, ep0_descriptor(m.max_packet_size0 as u16)),
        )
    }
}

/// After the port reset: its error ends the enumeration; otherwise the speed
/// is kept and the reset recovery time (20 ms) follows.
pub open spec fn spec_on_reset(m: EnumModel, r: Result<Speed, HostError>) -> (EnumModel, HostAction) {
    match r {
        Err(e) => finish_step(m, Err(e)),
        Ok(s) => (EnumModel { phase: EnumPhase::ResetRecovery, speed: s, ..m }, HostAction::Delay(20)),
    }
}

/// After opening a control pipe: its error ends the enumeration; otherwise the
/// device descriptor is read (8 bytes at address 0, all 18 at the new address).
pub open spec fn spec_on_pipe_opened(m: EnumModel, r: Result<(), HostError>) -> (EnumModel, HostAction) {
    match r {
        Err(e) => finish_step(m, Err(e)),
        Ok(_) => if m.phase == EnumPhase::OpeningDefaultPipe {
            (
                EnumModel { phase: EnumPhase::GettingShortDescriptor, ..m },
                HostAction::Transfer(get_device_descriptor_request(8)),
            )
        } else {
            (
                EnumModel { phase: EnumPhase::GettingDescriptor, ..m },
                HostAction::Transfer(get_device_descriptor_request(18)),
            )
        },
    }
}

/// After a control transfer (`buf` is the 18-byte descriptor buffer): its
/// error ends the enumeration. Otherwise: after the first 8 descriptor bytes
/// the device gets the next address (SET_ADDRESS) and the EP0 packet size is
/// kept from byte 7; after SET_ADDRESS 10 ms of recovery follow; after the full
/// descriptor the enumeration ends with the device, appended to the device
/// list where it has room, or with `DescriptorParseError`.
pub open spec fn spec_on_transfer(m: EnumModel, r: Result<usize, HostError>, buf: Seq<u8>, max_devices: nat) -> (EnumModel, HostAction) {
    match r {
        Err(e) => finish_step(m, Err(e)),
        Ok(_) => if m.phase == EnumPhase::GettingShortDescriptor {
            (
                EnumModel {
                    phase: EnumPhase::SettingAddress,
                    max_packet_size0: buf[7],
                    new_addr: m.next_address,
                    next_address: following_address(m.next_address),
                    ..m
                },
                HostAction::Transfer(set_address_request(m.next_address)),
            )
        } else if m.phase == EnumPhase::SettingAddress {
            (EnumModel { phase: EnumPhase::AddressRecovery, ..m }, HostAction::Delay(10))
        } else {
            match DeviceDescriptor::spec_from_bytes(buf) {
                None => finish_step(m, Err(HostError::DescriptorParseError)),
                Some(d) => {
                    let dev = AttachedDevice { address: m.new_addr, speed: m.speed, device_desc: d };
                    let devices = if m.devices.len() < max_devices {
                        m.devices.push(dev)
                    } else {
                        m.devices
                    };
                    finish_step(EnumModel { devices, ..m }, Ok(dev))
                },
            }
        },
    }
}

/// The state after a step is the one `n` gives, the action the one `n` gives.
pub open spec fn enum_next_is(m: EnumModel, a: HostAction, n: (EnumModel, HostAction)) -> bool {
    m =~= n.0 && a == n.1
}

/// The enumeration engine of a host with room for `MAX_DEVICES` devices.
/// The device list is a vstd-specified `Vec` whose length `enum_wf` bounds by
/// `MAX_DEVICES`: a capacity-generic `heapless::Vec` could not be given a
/// (non-generic) spec function for its contents.
pub struct Enumerator<const MAX_DEVICES: usize> {
    next_address: u8,
    devices: Vec<AttachedDevice>,
    phase: EnumPhase,
    speed: Speed,
    new_addr: u8,
    max_packet_size0: u8,
}

impl<const MAX_DEVICES: usize> View for Enumerator<MAX_DEVICES> {
    type V = EnumModel;

    closed spec fn view(&self) -> EnumModel {
        EnumModel {
            phase: self.phase,
            next_address: self.next_address,
            devices: self.devices@,
            speed: self.speed,
            new_addr: self.new_addr,
            max_packet_size0: self.max_packet_size0,
        }
    }
}

/// The invariant of the enumeration engine: the next address is a valid
/// device address (1 to 127), the device list is within its capacity, and once
/// SET_ADDRESS was sent the address being assigned is the one before the next.
pub open spec fn enum_wf(m: EnumModel, max_devices: nat) -> bool {
    &&& 1 <= m.next_address <= 127
    &&& m.devices.len() <= max_devices
    &&& addressed_phase(m.phase) ==> 1 <= m.new_addr <= 127 && m.next_address == following_address(
        m.new_addr,
    )
}

/// The phases after SET_ADDRESS was sent, in which the device is being
/// reached at its new address.
pub open spec fn addressed_phase(p: EnumPhase) -> bool {
    p == EnumPhase::SettingAddress || p == EnumPhase::AddressRecovery || p
        == EnumPhase::OpeningAddressedPipe || p == EnumPhase::GettingDescriptor
}

impl<const MAX_DEVICES: usize> Enumerator<MAX_DEVICES> {
    /// An idle engine with no devices whose first device gets address 1.
    pub fn new() -> (r: Self)
        ensures
            enum_wf(r@, MAX_DEVICES as nat),
            r@.phase == EnumPhase::Idle,
            r@.next_address == 1,
            r@.devices.len() == 0,
    {
        Enumerator {
            next_address: 1,
            devices: Vec::new(),
            phase: EnumPhase::Idle,
            speed: Speed::Full,
            new_addr: 0,
            max_packet_size0: 0,
        }
    }

    /// The devices enumerated so far, in order.
    pub fn devices(&self) -> (r: &Vec<AttachedDevice>)
        ensures
            r@ == self@.devices,
    {
        &self.devices
    }

    /// Starts the enumeration of the device on the root port (from any state).
    pub fn start(&mut self) -> (r: HostAction)
        requires
            enum_wf(old(self)@, MAX_DEVICES as nat),
        ensures
            enum_wf(final(self)@, MAX_DEVICES as nat),
            enum_next_is(final(self)@, r, spec_start(old(self)@)),
    {
        self.phase = EnumPhase::WaitConnect;
        HostAction::ReadPortStatus
    }

    pub fn on_port_status(&mut self, status: PortStatus) -> (r: HostAction)
        requires
            enum_wf(old(self)@, MAX_DEVICES as nat),
            old(self)@.phase == EnumPhase::WaitConnect,
        ensures
            enum_wf(final(self)@, MAX_DEVICES as nat),
            enum_next_is(final(self)@, r, spec_on_port_status(old(self)@, status)),
    {
        if status.connected {
            self.phase = EnumPhase::Debounce;
            HostAction::Delay(100)
        } else {
            self.phase = EnumPhase::PollDelay;
            HostAction::Delay(50)
        }
    }

    pub fn on_delay_done(&mut self) -> (r: HostAction)
        requires
            enum_wf(old(self)@, MAX_DEVICES as nat),
            old(self)@.phase == EnumPhase::PollDelay || old(self)@.phase == EnumPhase::Debounce
                || old(self)@.phase == EnumPhase::ResetRecovery || old(self)@.phase
                == EnumPhase::AddressRecovery,
        ensures
            enum_wf(final(self)@, MAX_DEVICES as nat),
            enum_next_is(final(self)@, r, spec_on_delay_done(old(self)@)),
    {
        if self.phase == EnumPhase::PollDelay {
            self.phase = EnumPhase::WaitConnect;
            HostAction::ReadPortStatus
        } else if self.phase == EnumPhase::Debounce {
            self.phase = EnumPhase::Resetting;
            HostAction::ResetPort
        } else if self.phase == EnumPhase::ResetRecovery {
            self.phase = EnumPhase::OpeningDefaultPipe;
            let mps: u16 = if self.speed == Speed::Low { 8 } else { 64 };
            HostAction::OpenPipe(
                0,
                EndpointDescriptor {
                    b_endpoint_address: 0,
                    bm_attributes: TransferType::Control.to_u8(),
                    w_max_packet_size: mps,
                    b_interval: 0,
                },
            )
        } else {
            self.phase = EnumPhase::OpeningAddressedPipe;
            HostAction::OpenPipe(
                self.new_addr,
                EndpointDescriptor {
                    b_endpoint_address: 0,
                    bm_attributes: TransferType::Control.to_u8(),
                    w_max_packet_size: self.max_packet_size0 as u16,
                    b_interval: 0,
                },
            )
        }
    }

    pub fn on_reset(&mut self, r: Result<Speed, HostError>) -> (a: HostAction)
        requires
            enum_wf(old(self)@, MAX_DEVICES as nat),
            old(self)@.phase == EnumPhase::Resetting,
        ensures
            enum_wf(final(self)@, MAX_DEVICES as nat),
            enum_next_is(final(self)@, a, spec_on_reset(old(self)@, r)),
    {
        match r {
            Err(e) => {
                self.phase = EnumPhase::Idle;
                HostAction::Finished(Err(e))
            },
            Ok(s) => {
                self.speed = s;
                self.phase = EnumPhase::ResetRecovery;
                HostAction::Delay(20)
            },
        }
    }

    pub fn on_pipe_opened(&mut self, r: Result<(), HostError>) -> (a: HostAction)
        requires
            enum_wf(old(self)@, MAX_DEVICES as nat),
            old(self)@.phase == EnumPhase::OpeningDefaultPipe || old(self)@.phase
                == EnumPhase::OpeningAddressedPipe,
        ensures
            enum_wf(final(self)@, MAX_DEVICES as nat),
            enum_next_is(final(self)@, a, spec_on_pipe_opened(old(self)@, r)),
    {
        match r {
            Err(e) => {
                self.phase = EnumPhase::Idle;
                HostAction::Finished(Err(e))
            },
            Ok(_) => {
                let length: u16 = if self.phase == EnumPhase::OpeningDefaultPipe {
                    self.phase = EnumPhase::GettingShortDescriptor;
                    8
                } else {
                    self.phase = EnumPhase::GettingDescriptor;
                    18
                };
                HostAction::Transfer(
                    SetupPacket { request_type: 0x80, request: 6, value: 0x0100, index: 0, length },
                )
            },
        }
    }

    pub fn on_transfer(&mut self, r: Result<usize, HostError>, buf: &[u8; 18]) -> (a: HostAction)
        requires
            enum_wf(old(self)@, MAX_DEVICES as nat),
            old(self)@.phase == EnumPhase::GettingShortDescriptor || old(self)@.phase
                == EnumPhase::SettingAddress || old(self)@.phase == EnumPhase::GettingDescriptor,
        ensures
            enum_wf(final(self)@, MAX_DEVICES as nat),
            enum_next_is(final(self)@, a, spec_on_transfer(old(self)@, r, buf@, MAX_DEVICES as nat)),
    {
        match r {
            Err(e) => {
                self.phase = EnumPhase::Idle;
                HostAction::Finished(Err(e))
            },
            Ok(_) => {
                if self.phase == EnumPhase::GettingShortDescriptor {
                    self.max_packet_size0 = buf[7];
                    let new_addr = self.next_address;
                    self.new_addr = new_addr;
                    self.next_address = if self.next_address >= 127 {
                        1
                    } else {
                        self.next_address + 1
                    };
                    self.phase = EnumPhase::SettingAddress;
                    HostAction::Transfer(
                        SetupPacket {
                            request_type: 0x00,
                            request: 5,
                            value: new_addr as u16,
                            index: 0,
                            length: 0,
                        },
                    )
                } else if self.phase == EnumPhase::SettingAddress {
                    self.phase = EnumPhase::AddressRecovery;
                    HostAction::Delay(10)
                } else {
                    self.phase = EnumPhase::Idle;
                    match DeviceDescriptor::from_bytes(buf) {
                        None => HostAction::Finished(Err(HostError::DescriptorParseError)),
                        Some(d) => {
                            if self.devices.len() < MAX_DEVICES {
                                self.devices.push(
                                    AttachedDevice {
                                        address: self.new_addr,
                                        speed: self.speed,
                                        device_desc: d,
                                    },
                                );
                            }
                            HostAction::Finished(
                                Ok(
                                    AttachedDevice {
                                        address: self.new_addr,
                                        speed: self.speed,
                                        device_desc: d,
                                    },
                                ),
                            )
                        },
                    }
                }
            },
        }
    }
}

/// The `k`-th address handed out (from 0): 1, 2, ..., 127, 1, 2, ...
pub open spec fn cycle_address(k: nat) -> u8 {
    ((k % 127) + 1) as u8
}

/// Device addresses are handed out in the cycle 1, 2, ..., 127, 1, ...: the
/// address after a valid one is valid, and follows it or wraps to 1; the
/// address after the `k`-th of the cycle is the `k + 1`-th; and two valid
/// addresses with the same successor are equal.
pub proof fn lemma_address_cycle(a: u8, b: u8, k: nat)
    requires
        1 <= a <= 127,
    ensures
        1 <= following_address(a) <= 127,
        a < 127 ==> following_address(a) == a + 1,
        a == 127 ==> following_address(a) == 1,
        cycle_address(0) == 1,
        1 <= cycle_address(k) <= 127,
        following_address(cycle_address(k)) == cycle_address(k + 1),
        1 <= b <= 127 && following_address(a) == following_address(b) ==> a == b,
{
    assert(k % 127 < 127);
    if k % 127 == 126 {
        assert((k + 1) % 127 == 0) by (nonlinear_arith)
            requires
                k % 127 == 126,
        ;
    } else {
        assert((k + 1) % 127 == k % 127 + 1) by (nonlinear_arith)
            requires
                k % 127 < 126,
        ;
    }
}

/// Whether step `n` from state `m` hands out an address: it sends SET_ADDRESS
/// with the next address, which becomes the address being assigned, and the
/// next address moves on in the cycle. Every other step keeps the next address.
pub open spec fn address_step(m: EnumModel, n: (EnumModel, HostAction)) -> bool {
    ||| n.0.next_address == m.next_address && !(n.1 matches HostAction::Transfer(p) && p.request == 5)
    ||| n.1 == HostAction::Transfer(set_address_request(m.next_address)) && n.0.new_addr
        == m.next_address && n.0.next_address == following_address(m.next_address)
}

/// Over the engine's lifetime the SET_ADDRESS values are the cycle 1, 2, ...,
/// 127, 1, ... in order: the engine starts with next address 1
/// (`Enumerator::new`), and every step either keeps the next address and sends
/// no SET_ADDRESS, or sends SET_ADDRESS with the next address and moves it on
/// in the cycle (`lemma_address_cycle`).
pub proof fn lemma_address_steps(
    m: EnumModel,
    max_devices: nat,
    status: PortStatus,
    reset: Result<Speed, HostError>,
    opened: Result<(), HostError>,
    transferred: Result<usize, HostError>,
    buf: Seq<u8>,
)
    requires
        enum_wf(m, max_devices),
        buf.len() == 18,
    ensures
        address_step(m, spec_start(m)),
        address_step(m, spec_on_port_status(m, status)),
        address_step(m, spec_on_delay_done(m)),
        address_step(m, spec_on_reset(m, reset)),
        address_step(m, spec_on_pipe_opened(m, opened)),
        (m.phase == EnumPhase::GettingShortDescriptor || m.phase == EnumPhase::SettingAddress
            || m.phase == EnumPhase::GettingDescriptor) ==> address_step(
            m,
            spec_on_transfer(m, transferred, buf, max_devices),
        ),
{
}

/// A device that the enumeration returns has the address of the latest
/// SET_ADDRESS: the valid address whose successor is the next address.
pub proof fn lemma_finished_address(m: EnumModel, max_devices: nat, transferred: Result<usize, HostError>, buf: Seq<u8>)
    requires
        enum_wf(m, max_devices),
        m.phase == EnumPhase::GettingDescriptor,
    ensures
        spec_on_transfer(m, transferred, buf, max_devices).1 matches HostAction::Finished(Ok(d))
            ==> d.address == m.new_addr && 1 <= d.address <= 127 && following_address(d.address)
            == m.next_address,
{
}


/// The speed an enumerated device is reported with is the one the port reset
/// reported: a successful reset stores it, no other step changes it, and a
/// device the enumeration returns, and records where the list has room,
/// carries it together with the assigned address and the parsed descriptor.
pub proof fn lemma_speed_from_reset(
    m: EnumModel,
    max_devices: nat,
    s: Speed,
    reset: Result<Speed, HostError>,
    status: PortStatus,
    opened: Result<(), HostError>,
    transferred: Result<usize, HostError>,
    buf: Seq<u8>,
)
    ensures
        spec_on_reset(m, Ok(s)).0.speed == s,
        reset is Err ==> spec_on_reset(m, reset).0.speed == m.speed,
        spec_start(m).0.speed == m.speed,
        spec_on_port_status(m, status).0.speed == m.speed,
        spec_on_delay_done(m).0.speed == m.speed,
        spec_on_pipe_opened(m, opened).0.speed == m.speed,
        spec_on_transfer(m, transferred, buf, max_devices).0.speed == m.speed,
        m.phase == EnumPhase::GettingDescriptor ==> (spec_on_transfer(m, transferred, buf, max_devices).1
            matches HostAction::Finished(Ok(d)) ==> d.speed == m.speed && d.address == m.new_addr
            && DeviceDescriptor::spec_from_bytes(buf) == Some(d.device_desc) && (
            spec_on_transfer(m, transferred, buf, max_devices).0.devices.len() > m.devices.len()
                ==> spec_on_transfer(m, transferred, buf, max_devices).0.devices.last() == d)),
{
}


/// The control requests of the enumeration are those of USB 2.0 chapter 9:
/// once the port reset recovered, the default pipe is opened at address 0 as a
/// control endpoint 0 with an 8-byte packet size for a low-speed device and 64
/// otherwise, and the device is asked with GET_DESCRIPTOR (device to host,
/// standard, device; descriptor type 1, index 0) for the first 8 bytes of its
/// device descriptor; SET_ADDRESS (host to device, standard, device) carries
/// the address in wValue and has no data stage; the pipe at the new address
/// uses the packet size from byte 7 of that first read, and the full 18 bytes
/// are read through it.
pub proof fn lemma_enumeration_requests(m: EnumModel, r: Result<(), HostError>, t: Result<usize, HostError>, buf: Seq<u8>, max_devices: nat)
    ensures
        m.phase == EnumPhase::ResetRecovery ==> spec_on_delay_done(m).1 == HostAction::OpenPipe(
            0,
            EndpointDescriptor {
                b_endpoint_address: 0,
                bm_attributes: 0,
                w_max_packet_size: if m.speed == Speed::Low { 8 } else { 64 },
                b_interval: 0,
            },
        ),
        m.phase == EnumPhase::AddressRecovery ==> spec_on_delay_done(m).1 == HostAction::OpenPipe(
            m.new_addr,
            EndpointDescriptor {
                b_endpoint_address: 0,
                bm_attributes: 0,
                w_max_packet_size: m.max_packet_size0 as u16,
                b_interval: 0,
            },
        ),
        m.phase == EnumPhase::OpeningDefaultPipe && r is Ok ==> spec_on_pipe_opened(m, r).1
            == HostAction::Transfer(
            SetupPacket { request_type: 0x80, request: 6, value: 0x0100, index: 0, length: 8 },
        ),
        m.phase == EnumPhase::OpeningAddressedPipe && r is Ok ==> spec_on_pipe_opened(m, r).1
            == HostAction::Transfer(
            SetupPacket { request_type: 0x80, request: 6, value: 0x0100, index: 0, length: 18 },
        ),
        m.phase == EnumPhase::GettingShortDescriptor && t is Ok ==> spec_on_transfer(
            m,
            t,
            buf,
            max_devices,
        ).1 == HostAction::Transfer(
            SetupPacket {
                request_type: 0,
                request: 5,
                value: m.next_address as u16,
                index: 0,
                length: 0,
            },
        ) && spec_on_transfer(m, t, buf, max_devices).0.max_packet_size0 == buf[7],
        StandardRequest::spec_from_u8(6) == Some(StandardRequest::GetDescriptor),
        StandardRequest::spec_from_u8(5) == Some(StandardRequest::SetAddress),
        req_type_of(0x80) == RequestType::Standard && recipient_of(0x80) == Recipient::Device
            && dir_of_bit7(0x80) == Direction::In,
        req_type_of(0) == RequestType::Standard && recipient_of(0) == Recipient::Device
            && dir_of_bit7(0) == Direction::Out,
{
    assert(((0x80u8 >> 5) & 0x03) == 0 && (0x80u8 & 0x1F) == 0 && (0x80u8 & 0x80) != 0) by (bit_vector);
    assert(((0u8 >> 5) & 0x03) == 0 && (0u8 & 0x1F) == 0 && (0u8 & 0x80) == 0) by (bit_vector);
}


/// The waits of the enumeration (USB 2.0 sections 7.1.7.3 and 9.2.6.3): the
/// port is looked at again every 50 ms until connected, a connection is
/// debounced for 100 ms, the reset is followed by 20 ms of recovery and
/// SET_ADDRESS by 10 ms.
pub proof fn lemma_enumeration_waits(m: EnumModel, status: PortStatus, speed: Speed, t: Result<usize, HostError>, buf: Seq<u8>, max_devices: nat)
    ensures
        m.phase == EnumPhase::WaitConnect ==> spec_on_port_status(m, status).1 == HostAction::Delay(
            if status.connected { 100 } else { 50 },
        ),
        m.phase == EnumPhase::Resetting ==> spec_on_reset(m, Ok(speed)).1 == HostAction::Delay(20),
        m.phase == EnumPhase::SettingAddress && t is Ok ==> spec_on_transfer(m, t, buf, max_devices).1
            == HostAction::Delay(10),
{
}

} // verus!
