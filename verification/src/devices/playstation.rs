//! PlayStation controllers: DualSense (PS5) and DualShock 4 (PS4).
//!
//! Both stream input reports on their own; one status byte of the report
//! holds the level in tenths (low nibble) and the charger state (high
//! nibble).

use vstd::prelude::*;

use crate::device::{
    comm_failure, communication_error, protocol_error, protocol_failure, result_view, ChargingState,
    DeviceError, DeviceIcon, ErrorKind,
};
use crate::devices::battery::{disconnected, initial_battery, reading, Battery, BatteryView};
use crate::hid::{find_matching, matching, push_tagged, tag, HidFilter, HidInfo, Port};

verus! {

pub const SONY_VID: u16 = 0x054C;

pub const DUALSENSE_PID: u16 = 0x0CE6;

pub const DUALSENSE_EDGE_PID: u16 = 0x0DF2;

pub const DUALSHOCK4_V1_PID: u16 = 0x05C4;

pub const DUALSHOCK4_V2_PID: u16 = 0x09CC;

pub open spec fn sony_filter(pid: u16) -> HidFilter {
    HidFilter { vendor_id: SONY_VID, product_id: pid, port: Port::Any }
}

/// The level nibble of a status byte, capped at 10.
pub open spec fn level_of(status: u8) -> u8 {
    if status & 0x0F > 10 {
        10
    } else {
        status & 0x0F
    }
}

fn level_from(status: u8) -> (r: u8)
    ensures
        r == level_of(status),
        r <= 10,
{
    let l = status & 0x0F;
    if l > 10 {
        10
    } else {
        l
    }
}

/// A DualSense or DualSense Edge controller.
#[derive(Debug, Clone, Copy)]
pub struct DualSense {
    is_edge: bool,
    battery: Battery,
}

impl View for DualSense {
    type V = (bool, BatteryView);

    closed spec fn view(&self) -> (bool, BatteryView) {
        (self.is_edge, self.battery@)
    }
}

/// The interfaces to open, in order, each with whether it is an Edge:
/// every DualSense, then every DualSense Edge.  Opening is enough.
pub open spec fn dualsense_plan(infos: Seq<HidInfo>) -> Seq<(usize, bool)> {
    tag(matching(infos, sony_filter(DUALSENSE_PID)), false) + tag(
        matching(infos, sony_filter(DUALSENSE_EDGE_PID)),
        true,
    )
}

pub open spec fn dualsense_charge(bits: u8) -> ChargingState {
    if bits == 0 {
        ChargingState::Discharging
    } else if bits == 1 {
        ChargingState::Charging
    } else if bits == 2 {
        ChargingState::Full
    } else {
        ChargingState::Unknown
    }
}

/// What one input report does: USB reports (id 1) and unknown ones carry
/// the status byte at offset 53, Bluetooth reports (id 0x31) at 54.
pub open spec fn dualsense_reply(b: BatteryView, report: Seq<u8>, bytes_read: usize) -> (
    BatteryView,
    Result<(), (ErrorKind, Seq<char>)>,
) {
    let offset: int = if report[0] == 0x31 {
        54
    } else {
        53
    };
    if bytes_read == 0 {
        (disconnected(b), comm_failure("No data from controller"@))
    } else if offset >= report.len() {
        (b, protocol_failure("Could not read battery status"@))
    } else {
        let status = report[offset];
        (
            reading((level_of(status) * 10) as u8, dualsense_charge((status >> 4) & 0x0F)),
            Ok(()),
        )
    }
}

impl DualSense {
    pub fn new(is_edge: bool) -> (r: DualSense)
        ensures
            r@ == (is_edge, initial_battery()),
    {
        DualSense { is_edge, battery: Battery::new() }
    }

    /// The enumerated interfaces to open, in order, with whether each is an
    /// Edge; the first that opens is the controller.
    pub fn discover(infos: &[HidInfo]) -> (r: Vec<(usize, bool)>)
        ensures
            r@ == dualsense_plan(infos@),
    {
        let mut plan: Vec<(usize, bool)> = Vec::new();
        let plain = find_matching(
            infos,
            &HidFilter { vendor_id: SONY_VID, product_id: DUALSENSE_PID, port: Port::Any },
        );
        push_tagged(&mut plan, &plain, false);
        let edge = find_matching(
            infos,
            &HidFilter { vendor_id: SONY_VID, product_id: DUALSENSE_EDGE_PID, port: Port::Any },
        );
        push_tagged(&mut plan, &edge, true);
        assert(plan@ =~= dualsense_plan(infos@));
        plan
    }

    /// Take in one input report, of which `bytes_read` bytes were filled.
    pub fn handle_report(&mut self, report: &[u8], bytes_read: usize) -> (r: Result<(), DeviceError>)
        requires
            bytes_read <= report@.len(),
        ensures
            final(self)@.0 == old(self)@.0,
            (final(self)@.1, result_view(r)) == dualsense_reply(old(self)@.1, report@, bytes_read),
    {
        if bytes_read == 0 {
            self.battery.set_disconnected();
            return Err(communication_error("No data from controller"));
        }
        let offset: usize = if report[0] == 0x31 {
            54
        } else {
            53
        };
        if offset >= report.len() {
            return Err(protocol_error("Could not read battery status"));
        }
        let status = report[offset];
        let level = level_from(status);
        let bits = (status >> 4) & 0x0F;
        let charging = if bits == 0 {
            ChargingState::Discharging
        } else if bits == 1 {
            ChargingState::Charging
        } else if bits == 2 {
            ChargingState::Full
        } else {
            ChargingState::Unknown
        };
        self.battery.set_reading(level * 10, charging);
        Ok(())
    }

    pub fn id(&self) -> (r: &'static str)
        ensures
            r@ == (if self@.0 {
                "sony-dualsense-edge"@
            } else {
                "sony-dualsense"@
            }),
    {
        if self.is_edge {
            "sony-dualsense-edge"
        } else {
            "sony-dualsense"
        }
    }

    pub fn name(&self) -> (r: &'static str)
        ensures
            r@ == (if self@.0 {
                "DualSense Edge"@
            } else {
                "DualSense"@
            }),
    {
        if self.is_edge {
            "DualSense Edge"
        } else {
            "DualSense"
        }
    }

    pub fn icon(&self) -> (r: DeviceIcon)
        ensures
            r == DeviceIcon::Controller,
    {
        DeviceIcon::Controller
    }

    pub fn battery_percent(&self) -> (r: Option<u8>)
        ensures
            r == self@.1.battery_percent,
            r matches Some(p) ==> p <= 100,
    {
        self.battery.battery_percent()
    }

    pub fn charging_state(&self) -> (r: ChargingState)
        ensures
            r == self@.1.charging_state,
    {
        self.battery.charging_state()
    }

    pub fn is_connected(&self) -> (r: bool)
        ensures
            r == self@.1.connected,
    {
        self.battery.is_connected()
    }
}

/// A DualShock 4 controller.
#[derive(Debug, Clone, Copy)]
pub struct DualShock4 {
    battery: Battery,
}

impl View for DualShock4 {
    type V = BatteryView;

    closed spec fn view(&self) -> BatteryView {
        self.battery@
    }
}

/// The interfaces to open, in order: the first hardware revision, then the
/// second.
pub open spec fn dualshock4_plan(infos: Seq<HidInfo>) -> Seq<usize> {
    matching(infos, sony_filter(DUALSHOCK4_V1_PID)) + matching(
        infos,
        sony_filter(DUALSHOCK4_V2_PID),
    )
}

/// What one input report does: Bluetooth reports (id 0x11) carry the
/// status byte at offset 32, USB ones at 30; bit 4 tells whether a cable
/// is plugged in.
pub open spec fn dualshock4_reply(b: BatteryView, report: Seq<u8>, bytes_read: usize) -> (
    BatteryView,
    Result<(), (ErrorKind, Seq<char>)>,
) {
    let offset: int = if report[0] == 0x11 {
        32
    } else {
        30
    };
    if bytes_read == 0 {
        (disconnected(b), comm_failure("No data from controller"@))
    } else if offset >= report.len() {
        (b, protocol_failure("Could not read battery status"@))
    } else {
        let status = report[offset];
        let level = level_of(status);
        let charging = if (status >> 4) & 0x01 == 1 {
            if level >= 10 {
                ChargingState::Full
            } else {
                ChargingState::Charging
            }
        } else {
            ChargingState::Discharging
        };
        (reading((level * 10) as u8, charging), Ok(()))
    }
}

impl DualShock4 {
    pub fn new() -> (r: DualShock4)
        ensures
            r@ == initial_battery(),
    {
        DualShock4 { battery: Battery::new() }
    }

    /// The enumerated interfaces to open, in order; the first that opens is
    /// the controller.
    pub fn discover(infos: &[HidInfo]) -> (r: Vec<usize>)
        ensures
            r@ == dualshock4_plan(infos@),
    {
        let mut plan = find_matching(
            infos,
            &HidFilter { vendor_id: SONY_VID, product_id: DUALSHOCK4_V1_PID, port: Port::Any },
        );
        let mut second = find_matching(
            infos,
            &HidFilter { vendor_id: SONY_VID, product_id: DUALSHOCK4_V2_PID, port: Port::Any },
        );
        plan.append(&mut second);
        plan
    }

    /// Take in one input report, of which `bytes_read` bytes were filled.
    pub fn handle_report(&mut self, report: &[u8], bytes_read: usize) -> (r: Result<(), DeviceError>)
        requires
            bytes_read <= report@.len(),
        ensures
            (final(self)@, result_view(r)) == dualshock4_reply(old(self)@, report@, bytes_read),
    {
        if bytes_read == 0 {
            self.battery.set_disconnected();
            return Err(communication_error("No data from controller"));
        }
        let offset: usize = if report[0] == 0x11 {
            32
        } else {
            30
        };
        if offset >= report.len() {
            return Err(protocol_error("Could not read battery status"));
        }
        let status = report[offset];
        let level = level_from(status);
        let charging = if (status >> 4) & 0x01 == 1 {
            if level >= 10 {
                ChargingState::Full
            } else {
                ChargingState::Charging
            }
        } else {
            ChargingState::Discharging
        };
        self.battery.set_reading(level * 10, charging);
        Ok(())
    }

    pub fn id(&self) -> (r: &'static str)
        ensures
            r@ == "sony-dualshock4"@,
    {
        "sony-dualshock4"
    }

    pub fn name(&self) -> (r: &'static str)
        ensures
            r@ == "DualShock 4"@,
    {
        "DualShock 4"
    }

    pub fn icon(&self) -> (r: DeviceIcon)
        ensures
            r == DeviceIcon::Controller,
    {
        DeviceIcon::Controller
    }

    pub fn battery_percent(&self) -> (r: Option<u8>)
        ensures
            r == self@.battery_percent,
            r matches Some(p) ==> p <= 100,
    {
        self.battery.battery_percent()
    }

    pub fn charging_state(&self) -> (r: ChargingState)
        ensures
            r == self@.charging_state,
    {
        self.battery.charging_state()
    }

    pub fn is_connected(&self) -> (r: bool)
        ensures
            r == self@.connected,
    {
        self.battery.is_connected()
    }
}

/// A DualSense input report that holds its status byte (offset 54 for a
/// Bluetooth report, id 0x31, else 53) is a reading: ten times the low
/// nibble, capped at 100; the high nibble is the charger state, 0 on
/// battery, 1 charging, 2 full, anything else unknown.
pub proof fn lemma_dualsense_status_byte(b: BatteryView, report: Seq<u8>, bytes_read: usize)
    requires
        bytes_read > 0,
        bytes_read <= report.len(),
        (if report[0] == 0x31 { 54int } else { 53int }) < report.len(),
    ensures
        ({
            let s = report[if report[0] == 0x31 { 54int } else { 53int }];
            let (after, outcome) = dualsense_reply(b, report, bytes_read);
            &&& outcome == Ok::<(), (ErrorKind, Seq<char>)>(())
            &&& after.connected
            &&& after.battery_percent == Some(
                (if s % 16 > 10 { 100int } else { (s % 16) * 10 }) as u8,
            )
            &&& s < 0x10 <==> after.charging_state == ChargingState::Discharging
            &&& (0x10 <= s < 0x20) <==> after.charging_state == ChargingState::Charging
            &&& (0x20 <= s < 0x30) <==> after.charging_state == ChargingState::Full
            &&& s >= 0x30 <==> after.charging_state == ChargingState::Unknown
        }),
{
    let s = report[if report[0] == 0x31 { 54int } else { 53int }];
    assert(s & 0x0F == s % 16) by (bit_vector);
    assert((s >> 4) & 0x0F == s / 16) by (bit_vector);
}

/// A DualShock 4 input report that holds its status byte (offset 32 for a
/// Bluetooth report, id 0x11, else 30) is a reading of ten times the low
/// nibble, capped at 100; with bit 4 (the cable) clear the controller is on
/// battery, with it set full at level 10 and above, else charging.
pub proof fn lemma_dualshock4_status_byte(b: BatteryView, report: Seq<u8>, bytes_read: usize)
    requires
        bytes_read > 0,
        bytes_read <= report.len(),
        (if report[0] == 0x11 { 32int } else { 30int }) < report.len(),
    ensures
        ({
            let s = report[if report[0] == 0x11 { 32int } else { 30int }];
            let level = if s % 16 > 10 { 10int } else { (s % 16) as int };
            let cable = (s / 16) % 2 == 1;
            let (after, outcome) = dualshock4_reply(b, report, bytes_read);
            &&& outcome == Ok::<(), (ErrorKind, Seq<char>)>(())
            &&& after.connected
            &&& after.battery_percent == Some((level * 10) as u8)
            &&& !cable <==> after.charging_state == ChargingState::Discharging
            &&& (cable && level < 10) <==> after.charging_state == ChargingState::Charging
            &&& (cable && level == 10) <==> after.charging_state == ChargingState::Full
        }),
{
    let s = report[if report[0] == 0x11 { 32int } else { 30int }];
    assert(s & 0x0F == s % 16) by (bit_vector);
    assert((s >> 4) & 0x01 == (s / 16) % 2) by (bit_vector);
}

/// An empty read leaves a DualSense or DualShock 4 disconnected with its
/// last reading, and fails.
pub proof fn lemma_sony_empty_read(b: BatteryView, report: Seq<u8>)
    ensures
        dualsense_reply(b, report, 0).0 == (BatteryView { connected: false, ..b }),
        dualsense_reply(b, report, 0).1 is Err,
        dualshock4_reply(b, report, 0).0 == (BatteryView { connected: false, ..b }),
        dualshock4_reply(b, report, 0).1 is Err,
{
}

} // verus!
