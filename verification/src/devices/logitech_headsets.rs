//! Logitech headsets: the G Pro X 2 LIGHTSPEED (64-byte vendor protocol)
//! and the G Pro X Wireless and G633/G635/G733/G933/G935 family, which
//! report a battery voltage over HID++.

use vstd::prelude::*;

use crate::device::{
    comm_failure, communication_error, protocol_failure, result_view, step_view, ChargingState,
    DeviceError, DeviceIcon, ErrorKind, ReportStep,
};
use crate::devices::battery::{
    charge_from, charge_state_from, disconnected, initial_battery, reading, Battery, BatteryView,
};
use crate::hid::{find_matching, matching, padded, push_tagged, tag, HidFilter, HidInfo, Port};
use crate::text::{dec_nat, fmt_u64};

verus! {

pub const LOGITECH_VID: u16 = 0x046D;

pub const GPRO_X2_LIGHTSPEED_PID: u16 = 0x0AF7;

pub const GPRO_X_WIRELESS_PID: u16 = 0x0ABA;

/// G633, G933, G935, G635, G733 and a second G733 id.
pub const G633_PIDS: [u16; 6] = [0x0A5C, 0x0A5B, 0x0A87, 0x0A89, 0x0AB5, 0x0AFE];

pub const GPX2_USAGE_PAGE: u16 = 0xFFA0;

pub const GPX2_INTERFACE: i32 = 3;

pub const HIDPP_USAGE_PAGE: u16 = 0xFF43;

/// Reads of the G Pro X 2 before giving up on a battery report.
pub const GPX2_MAX_READS: u32 = 10;

/// Voltage (mV) to percentage calibration of the G Pro X.
pub const GPRO_X_CALIBRATION: [(u16, u8); 6] = [
    (4150, 100),
    (3830, 50),
    (3780, 30),
    (3740, 20),
    (3670, 5),
    (3320, 0),
];

/// Voltage (mV) to percentage calibration of the G933 family.
pub const G933_CALIBRATION: [(u16, u8); 6] = [
    (4100, 100),
    (3900, 75),
    (3800, 50),
    (3700, 25),
    (3600, 5),
    (3500, 0),
];

// ------------------------------------------------------------------------
// Voltage calibration
// ------------------------------------------------------------------------

/// `v` lies between calibration points `i` (higher) and `i + 1` (lower).
pub open spec fn in_segment(v: u16, cal: Seq<(u16, u8)>, i: int) -> bool {
    cal[i + 1].0 <= v <= cal[i].0
}

/// Segment `i` is the first one that holds `v`.
pub open spec fn first_segment(v: u16, cal: Seq<(u16, u8)>, i: int) -> bool {
    &&& 0 <= i < cal.len() - 1
    &&& in_segment(v, cal, i)
    &&& forall|j: int| 0 <= j < i ==> !in_segment(v, cal, j)
}

/// Linear interpolation between two calibration points, rounded down.
pub open spec fn interpolate(v: u16, high: (u16, u8), low: (u16, u8)) -> int {
    if high.0 == low.0 {
        high.1 as int
    } else {
        low.1 + (v - low.0) * (high.1 - low.1) / (high.0 - low.0)
    }
}

/// The percentage for a voltage: interpolated within the first segment of
/// the table that holds it; outside the table, 100 at or above the first
/// point and 0 below.
pub open spec fn voltage_percent(v: u16, cal: Seq<(u16, u8)>) -> int {
    if exists|i: int| first_segment(v, cal, i) {
        let i = choose|i: int| first_segment(v, cal, i);
        interpolate(v, cal[i], cal[i + 1])
    } else if v >= cal[0].0 {
        100
    } else {
        0
    }
}

/// A table on which the conversion of `v` is defined: not empty, and the
/// segment that holds `v` does not rise in percentage as the voltage falls.
pub open spec fn calibration_usable(v: u16, cal: Seq<(u16, u8)>) -> bool {
    &&& cal.len() >= 1
    &&& forall|i: int| first_segment(v, cal, i) ==> cal[i].1 >= cal[i + 1].1
}

/// Percentages never rise as the voltage falls, and none is above 100.
pub open spec fn calibration_well_formed(cal: Seq<(u16, u8)>) -> bool {
    &&& cal.len() >= 1
    &&& forall|i: int, j: int| 0 <= i <= j < cal.len() ==> cal[i].1 >= cal[j].1
    &&& forall|i: int| 0 <= i < cal.len() ==> cal[i].1 <= 100
}

proof fn lemma_scaled_fraction(a: int, b: int, p: int)
    requires
        0 <= a <= b,
        0 < b,
        0 <= p,
    ensures
        0 <= a * p / b <= p,
{
    assert(a * p <= b * p) by (nonlinear_arith)
        requires
            0 <= a <= b,
            0 <= p,
    ;
    assert(0 <= a * p) by (nonlinear_arith)
        requires
            0 <= a,
            0 <= p,
    ;
    assert(a * p / b <= p) by (nonlinear_arith)
        requires
            a * p <= b * p,
            0 < b,
    ;
    assert(0 <= a * p / b) by (nonlinear_arith)
        requires
            0 <= a * p,
            0 < b,
    ;
}

/// Battery percentage for a voltage in millivolts, by the calibration
/// table (points from the highest voltage down), interpolated in integer
/// arithmetic.  That this gives the same percentage as the single-precision
/// formula `p_low + ((v - v_low) / v_range * p_range)`, truncated, is not
/// proved here: the test `voltage_matches_single_precision_formula` checks
/// it for every `u16` voltage on the two tables this crate holds.
pub fn voltage_to_percent(voltage: u16, calibration: &[(u16, u8)]) -> (r: u8)
    requires
        calibration_usable(voltage, calibration@),
    ensures
        r == voltage_percent(voltage, calibration@),
{
    let n = calibration.len();
    let mut i: usize = 0;
    while i < n - 1
        invariant
            n == calibration@.len(),
            n >= 1,
            0 <= i <= n - 1,
            calibration_usable(voltage, calibration@),
            forall|j: int| 0 <= j < i ==> !in_segment(voltage, calibration@, j),
        decreases n - 1 - i,
    {
        let (v_high, p_high) = calibration[i];
        let (v_low, p_low) = calibration[i + 1];
        if voltage >= v_low && voltage <= v_high {
            assert(first_segment(voltage, calibration@, i as int));
            let ghost k = choose|k: int| first_segment(voltage, calibration@, k);
            assert(k == i) by {
                if k < i {
                    assert(!in_segment(voltage, calibration@, k));
                }
                if k > i {
                    assert(!in_segment(voltage, calibration@, i as int));
                }
            }
            let v_range = v_high - v_low;
            let p_range = p_high - p_low;
            if v_range == 0 {
                return p_high;
            }
            let a = (voltage - v_low) as u32;
            proof {
                lemma_scaled_fraction(a as int, v_range as int, p_range as int);
            }
            assert(a * (p_range as u32) <= 65535 * 255) by (nonlinear_arith)
                requires
                    a <= 65535,
                    p_range <= 255,
            ;
            let step = a * (p_range as u32) / (v_range as u32);
            return p_low + (step as u8);
        }
        i = i + 1;
    }
    assert(!exists|k: int| first_segment(voltage, calibration@, k));
    if voltage >= calibration[0].0 {
        100
    } else {
        0
    }
}

/// On a well-formed table every voltage converts, to at most 100 percent.
pub proof fn lemma_voltage_percent_in_range(v: u16, cal: Seq<(u16, u8)>)
    requires
        calibration_well_formed(cal),
    ensures
        calibration_usable(v, cal),
        0 <= voltage_percent(v, cal) <= 100,
{
    if exists|i: int| first_segment(v, cal, i) {
        let i = choose|i: int| first_segment(v, cal, i);
        let high = cal[i];
        let low = cal[i + 1];
        if high.0 != low.0 {
            lemma_scaled_fraction((v - low.0) as int, (high.0 - low.0) as int, (high.1 - low.1) as int);
        }
    }
}

/// A well-formed table whose voltages fall from the first point to the last.
pub open spec fn calibration_sorted(cal: Seq<(u16, u8)>) -> bool {
    &&& calibration_well_formed(cal)
    &&& forall|i: int, j: int| 0 <= i <= j < cal.len() ==> cal[i].0 >= cal[j].0
}

proof fn lemma_segment_exists(v: u16, cal: Seq<(u16, u8)>, k: int)
    requires
        calibration_sorted(cal),
        0 <= k < cal.len() - 1,
        cal[cal.len() - 1].0 <= v <= cal[k].0,
    ensures
        exists|i: int| k <= i < cal.len() - 1 && in_segment(v, cal, i),
    decreases cal.len() - 1 - k,
{
    if cal[k + 1].0 <= v {
        assert(in_segment(v, cal, k));
    } else {
        lemma_segment_exists(v, cal, k + 1);
        let i = choose|i: int| k + 1 <= i < cal.len() - 1 && in_segment(v, cal, i);
        assert(k <= i < cal.len() - 1 && in_segment(v, cal, i));
    }
}

proof fn lemma_first_segment_exists(v: u16, cal: Seq<(u16, u8)>, i: int)
    requires
        0 <= i < cal.len() - 1,
        in_segment(v, cal, i),
    ensures
        exists|j: int| first_segment(v, cal, j),
    decreases i,
{
    if forall|j: int| 0 <= j < i ==> !in_segment(v, cal, j) {
        assert(first_segment(v, cal, i));
    } else {
        let j = choose|j: int| 0 <= j < i && in_segment(v, cal, j);
        lemma_first_segment_exists(v, cal, j);
    }
}

proof fn lemma_interpolate_bounds(v: u16, cal: Seq<(u16, u8)>, i: int)
    requires
        calibration_sorted(cal),
        0 <= i < cal.len() - 1,
        in_segment(v, cal, i),
    ensures
        cal[i + 1].1 <= interpolate(v, cal[i], cal[i + 1]) <= cal[i].1,
{
    let high = cal[i];
    let low = cal[i + 1];
    if high.0 != low.0 {
        lemma_scaled_fraction((v - low.0) as int, (high.0 - low.0) as int, (high.1 - low.1) as int);
    }
}

/// A higher voltage never reads as a lower percentage, on a table whose
/// voltages and percentages both fall from the first point to the last.
pub proof fn lemma_voltage_percent_monotonic(v1: u16, v2: u16, cal: Seq<(u16, u8)>)
    requires
        calibration_sorted(cal),
        v1 <= v2,
    ensures
        voltage_percent(v1, cal) <= voltage_percent(v2, cal),
{
    lemma_voltage_percent_in_range(v1, cal);
    lemma_voltage_percent_in_range(v2, cal);
    let n = cal.len();
    let has1 = exists|i: int| first_segment(v1, cal, i);
    let has2 = exists|i: int| first_segment(v2, cal, i);
    if has1 && has2 {
        let i1 = choose|i: int| first_segment(v1, cal, i);
        let i2 = choose|i: int| first_segment(v2, cal, i);
        lemma_interpolate_bounds(v1, cal, i1);
        lemma_interpolate_bounds(v2, cal, i2);
        if i1 < i2 {
            assert(cal[i2].0 <= cal[i1 + 1].0);
            assert(in_segment(v2, cal, i1));
        } else if i1 > i2 {
            assert(cal[i1].1 <= cal[i2 + 1].1);
        } else {
            let high = cal[i1];
            let low = cal[i1 + 1];
            if high.0 != low.0 {
                let a1 = (v1 - low.0) as int;
                let a2 = (v2 - low.0) as int;
                let p = (high.1 - low.1) as int;
                let b = (high.0 - low.0) as int;
                assert(a1 * p <= a2 * p) by (nonlinear_arith)
                    requires
                        0 <= a1 <= a2,
                        0 <= p,
                ;
                vstd::arithmetic::div_mod::lemma_div_is_ordered(a1 * p, a2 * p, b);
            }
        }
    } else if has1 && !has2 {
        if v2 < cal[0].0 {
            let i1 = choose|i: int| first_segment(v1, cal, i);
            assert(cal[n - 1].0 <= cal[i1 + 1].0);
            lemma_segment_exists(v2, cal, 0);
            let i = choose|i: int| 0 <= i < n - 1 && in_segment(v2, cal, i);
            lemma_first_segment_exists(v2, cal, i);
        }
    } else if !has1 && has2 {
        if v1 >= cal[0].0 {
            let i2 = choose|i: int| first_segment(v2, cal, i);
            assert(cal[i2].0 <= cal[0].0);
            assert(in_segment(v1, cal, 0) || cal[1].0 > v1);
            if n >= 2 && cal[1].0 <= v1 {
                lemma_first_segment_exists(v1, cal, 0);
            }
        }
    }
}

/// The two tables are well formed.
pub proof fn lemma_calibrations_well_formed()
    ensures
        calibration_sorted(GPRO_X_CALIBRATION@),
        calibration_sorted(G933_CALIBRATION@),
{
    assert(GPRO_X_CALIBRATION@ =~= seq![
        (4150u16, 100u8),
        (3830u16, 50u8),
        (3780u16, 30u8),
        (3740u16, 20u8),
        (3670u16, 5u8),
        (3320u16, 0u8),
    ]);
    assert(G933_CALIBRATION@ =~= seq![
        (4100u16, 100u8),
        (3900u16, 75u8),
        (3800u16, 50u8),
        (3700u16, 25u8),
        (3600u16, 5u8),
        (3500u16, 0u8),
    ]);
}

// ------------------------------------------------------------------------
// HID++ voltage protocol (G Pro X Wireless, G633 family)
// ------------------------------------------------------------------------

/// The voltage, in millivolts, of a HID++ battery reply (bytes 4 and 5,
/// big-endian).
pub open spec fn reply_voltage(response: Seq<u8>) -> int {
    response[4] * 256 + response[5]
}

/// What a HID++ battery reply does: byte 2 of 0xFF means the headset is
/// offline; a voltage outside 3000..=4500 mV is rejected; byte 6 of 3 means
/// charging.
pub open spec fn voltage_reply(
    b: BatteryView,
    response: Seq<u8>,
    bytes_read: usize,
    cal: Seq<(u16, u8)>,
) -> (BatteryView, Result<(), (ErrorKind, Seq<char>)>) {
    let v = reply_voltage(response);
    if bytes_read == 0 {
        (disconnected(b), comm_failure("No response"@))
    } else if response[2] == 0xFF {
        (disconnected(b), Ok(()))
    } else if v < 3000 || v > 4500 {
        (b, protocol_failure("Invalid voltage: "@ + dec_nat(v as nat)))
    } else {
        let p = voltage_percent(v as u16, cal) as u8;
        (reading(p, charge_from(response[6] == 0x03, p)), Ok(()))
    }
}

/// The HID++ battery query both voltage-reporting families take.
pub open spec fn voltage_request() -> Seq<u8> {
    padded(seq![0x11u8, 0xFFu8, 0x06u8, 0x0Du8], 20)
}

fn voltage_battery_request() -> (r: [u8; 20])
    ensures
        r@ == voltage_request(),
{
    let mut r = [0u8; 20];
    r[0] = 0x11;
    r[1] = 0xFF;
    r[2] = 0x06;
    r[3] = 0x0D;
    assert(r@ =~= voltage_request());
    r
}

fn handle_voltage_response(
    battery: &mut Battery,
    response: &[u8; 20],
    bytes_read: usize,
    cal: &[(u16, u8)],
) -> (r: Result<(), DeviceError>)
    requires
        calibration_well_formed(cal@),
    ensures
        (final(battery)@, result_view(r)) == voltage_reply(old(battery)@, response@, bytes_read, cal@),
{
    if bytes_read == 0 {
        battery.set_disconnected();
        return Err(communication_error("No response"));
    }
    if response[2] == 0xFF {
        battery.set_disconnected();
        return Ok(());
    }
    let voltage: u16 = (response[4] as u16) * 256 + (response[5] as u16);
    if voltage < 3000 || voltage > 4500 {
        let mut msg = "Invalid voltage: ".to_owned();
        let digits = fmt_u64(voltage as u64);
        msg.append(digits.as_str());
        return Err(DeviceError::ProtocolError(msg));
    }
    proof {
        lemma_voltage_percent_in_range(voltage, cal@);
    }
    let percent = voltage_to_percent(voltage, cal);
    battery.set_reading(percent, charge_state_from(response[6] == 0x03, percent));
    Ok(())
}

// ------------------------------------------------------------------------
// G Pro X 2 LIGHTSPEED
// ------------------------------------------------------------------------

/// A G Pro X 2 LIGHTSPEED headset.
#[derive(Debug, Clone, Copy)]
pub struct LogitechGProX2 {
    battery: Battery,
}

impl View for LogitechGProX2 {
    type V = BatteryView;

    closed spec fn view(&self) -> BatteryView {
        self.battery@
    }
}

pub open spec fn gpro_x2_filter() -> HidFilter {
    HidFilter {
        vendor_id: LOGITECH_VID,
        product_id: GPRO_X2_LIGHTSPEED_PID,
        port: Port::UsagePageOrInterface(GPX2_USAGE_PAGE, GPX2_INTERFACE),
    }
}

/// What read number `attempt` (from 0) after the battery query does: a
/// power-off notice ends the exchange with the headset disconnected, a
/// battery report with a level of at most 100 ends it with that reading;
/// anything else, an empty read included, waits for the next report, up
/// to ten reads.
pub open spec fn gpro_x2_report(b: BatteryView, attempt: u32, response: Seq<u8>, bytes_read: usize) -> (
    BatteryView,
    Option<Result<(), (ErrorKind, Seq<char>)>>,
) {
    let level = response[10];
    if bytes_read > 0 && response[0] == 0x51 && response[1] == 0x05 && response[6] == 0x00 {
        (disconnected(b), Some(Ok(())))
    } else if bytes_read > 0 && response[0] == 0x51 && response[1] == 0x0B && response[8] == 0x04
        && level <= 100 {
        (reading(level, charge_from(response[12] == 0x02, level)), Some(Ok(())))
    } else if attempt + 1 >= GPX2_MAX_READS {
        (b, Some(comm_failure("No battery response"@)))
    } else {
        (b, None)
    }
}

impl LogitechGProX2 {
    pub fn new() -> (r: LogitechGProX2)
        ensures
            r@ == initial_battery(),
    {
        LogitechGProX2 { battery: Battery::new() }
    }

    /// The enumerated interfaces to open and query, in order.
    pub fn discover(infos: &[HidInfo]) -> (r: Vec<usize>)
        ensures
            r@ == matching(infos@, gpro_x2_filter()),
    {
        find_matching(
            infos,
            &HidFilter {
                vendor_id: LOGITECH_VID,
                product_id: GPRO_X2_LIGHTSPEED_PID,
                port: Port::UsagePageOrInterface(GPX2_USAGE_PAGE, GPX2_INTERFACE),
            },
        )
    }

    /// The battery query to write.
    pub fn battery_request() -> (r: [u8; 64])
        ensures
            r@ == padded(
                seq![0x51u8, 0x08u8, 0x00u8, 0x03u8, 0x1Au8, 0x00u8, 0x03u8, 0x00u8, 0x04u8, 0x0Au8],
                64,
            ),
    {
        let mut r = [0u8; 64];
        r[0] = 0x51;
        r[1] = 0x08;
        r[3] = 0x03;
        r[4] = 0x1A;
        r[6] = 0x03;
        r[8] = 0x04;
        r[9] = 0x0A;
        assert(r@ =~= padded(
            seq![0x51u8, 0x08u8, 0x00u8, 0x03u8, 0x1Au8, 0x00u8, 0x03u8, 0x00u8, 0x04u8, 0x0Au8],
            64,
        ));
        r
    }

    /// Take in read number `attempt` (from 0) after the battery query.
    pub fn handle_report(&mut self, attempt: u32, response: &[u8; 64], bytes_read: usize) -> (r:
        ReportStep)
        ensures
            (final(self)@, step_view(r)) == gpro_x2_report(old(self)@, attempt, response@, bytes_read),
    {
        if bytes_read > 0 {
            if response[0] == 0x51 && response[1] == 0x05 && response[6] == 0x00 {
                self.battery.set_disconnected();
                return ReportStep::Done(Ok(()));
            }
            if response[0] == 0x51 && response[1] == 0x0B && response[8] == 0x04 {
                let level = response[10];
                if level <= 100 {
                    self.battery.set_reading(level, charge_state_from(response[12] == 0x02, level));
                    return ReportStep::Done(Ok(()));
                }
            }
        }
        if attempt >= GPX2_MAX_READS - 1 {
            return ReportStep::Done(Err(communication_error("No battery response")));
        }
        ReportStep::Pending
    }

    pub fn id(&self) -> (r: &'static str)
        ensures
            r@ == "logitech-gpro-x2"@,
    {
        "logitech-gpro-x2"
    }

    pub fn name(&self) -> (r: &'static str)
        ensures
            r@ == "G Pro X 2"@,
    {
        "G Pro X 2"
    }

    pub fn icon(&self) -> (r: DeviceIcon)
        ensures
            r == DeviceIcon::Headset,
    {
        DeviceIcon::Headset
    }

    pub fn battery_percent(&self) -> (r: Option<u8>)
        ensures
            r == self@.battery_percent,
            r matches Some(p) ==> p <= 100,
    {
        self.battery.battery_percent()
    }

    pub fn charging_state(&self) -> (r: ChargingState)
        ensures
            r == self@.charging_state,
    {
        self.battery.charging_state()
    }

    pub fn is_connected(&self) -> (r: bool)
        ensures
            r == self@.connected,
    {
        self.battery.is_connected()
    }
}

// ------------------------------------------------------------------------
// G Pro X Wireless
// ------------------------------------------------------------------------

/// A G Pro X Wireless headset.
#[derive(Debug, Clone, Copy)]
pub struct LogitechGProX {
    battery: Battery,
}

impl View for LogitechGProX {
    type V = BatteryView;

    closed spec fn view(&self) -> BatteryView {
        self.battery@
    }
}

pub open spec fn gpro_x_filter() -> HidFilter {
    HidFilter {
        vendor_id: LOGITECH_VID,
        product_id: GPRO_X_WIRELESS_PID,
        port: Port::UsagePage(HIDPP_USAGE_PAGE),
    }
}

impl LogitechGProX {
    pub fn new() -> (r: LogitechGProX)
        ensures
            r@ == initial_battery(),
    {
        LogitechGProX { battery: Battery::new() }
    }

    /// The enumerated interfaces to open and query, in order.
    pub fn discover(infos: &[HidInfo]) -> (r: Vec<usize>)
        ensures
            r@ == matching(infos@, gpro_x_filter()),
    {
        find_matching(
            infos,
            &HidFilter {
                vendor_id: LOGITECH_VID,
                product_id: GPRO_X_WIRELESS_PID,
                port: Port::UsagePage(HIDPP_USAGE_PAGE),
            },
        )
    }

    /// The battery query to write.
    pub fn battery_request() -> (r: [u8; 20])
        ensures
            r@ == voltage_request(),
    {
        voltage_battery_request()
    }

    /// Take in the reply, converting the voltage by the G Pro X table.
    pub fn handle_battery_response(&mut self, response: &[u8; 20], bytes_read: usize) -> (r: Result<
        (),
        DeviceError,
    >)
        ensures
            (final(self)@, result_view(r)) == voltage_reply(
                old(self)@,
                response@,
                bytes_read,
                GPRO_X_CALIBRATION@,
            ),
    {
        proof {
            lemma_calibrations_well_formed();
        }
        let table = GPRO_X_CALIBRATION;
        handle_voltage_response(&mut self.battery, response, bytes_read, &table)
    }

    pub fn id(&self) -> (r: &'static str)
        ensures
            r@ == "logitech-gpro-x"@,
    {
        "logitech-gpro-x"
    }

    pub fn name(&self) -> (r: &'static str)
        ensures
            r@ == "G Pro X"@,
    {
        "G Pro X"
    }

    pub fn icon(&self) -> (r: DeviceIcon)
        ensures
            r == DeviceIcon::Headset,
    {
        DeviceIcon::Headset
    }

    pub fn battery_percent(&self) -> (r: Option<u8>)
        ensures
            r == self@.battery_percent,
            r matches Some(p) ==> p <= 100,
    {
        self.battery.battery_percent()
    }

    pub fn charging_state(&self) -> (r: ChargingState)
        ensures
            r == self@.charging_state,
    {
        self.battery.charging_state()
    }

    pub fn is_connected(&self) -> (r: bool)
        ensures
            r == self@.connected,
    {
        self.battery.is_connected()
    }
}

// ------------------------------------------------------------------------
// G633 / G635 / G733 / G933 / G935
// ------------------------------------------------------------------------

/// Models of the G633 family.
#[derive(Debug, Clone, Copy, PartialEq, Eq, Structural)]
pub enum G933Model {
    G633,
    G933,
    G935,
    G635,
    G733,
    GSeries,
}

pub open spec fn g933_model(pid: u16) -> G933Model {
    if pid == 0x0A5C {
        G933Model::G633
    } else if pid == 0x0A5B {
        G933Model::G933
    } else if pid == 0x0A87 {
        G933Model::G935
    } else if pid == 0x0A89 {
        G933Model::G635
    } else if pid == 0x0AB5 || pid == 0x0AFE {
        G933Model::G733
    } else {
        G933Model::GSeries
    }
}

fn g933_model_of(pid: u16) -> (r: G933Model)
    ensures
        r == g933_model(pid),
{
    if pid == 0x0A5C {
        G933Model::G633
    } else if pid == 0x0A5B {
        G933Model::G933
    } else if pid == 0x0A87 {
        G933Model::G935
    } else if pid == 0x0A89 {
        G933Model::G635
    } else if pid == 0x0AB5 || pid == 0x0AFE {
        G933Model::G733
    } else {
        G933Model::GSeries
    }
}

pub open spec fn g933_model_name(m: G933Model) -> Seq<char> {
    match m {
        G933Model::G633 => "G633"@,
        G933Model::G933 => "G933"@,
        G933Model::G935 => "G935"@,
        G933Model::G635 => "G635"@,
        G933Model::G733 => "G733"@,
        G933Model::GSeries => "G-Series"@,
    }
}

/// A headset of the G633 family.
#[derive(Debug, Clone, Copy)]
pub struct LogitechG933 {
    model: G933Model,
    battery: Battery,
}

impl View for LogitechG933 {
    type V = (G933Model, BatteryView);

    closed spec fn view(&self) -> (G933Model, BatteryView) {
        (self.model, self.battery@)
    }
}

pub open spec fn g933_filter(pid: u16) -> HidFilter {
    HidFilter { vendor_id: LOGITECH_VID, product_id: pid, port: Port::UsagePage(HIDPP_USAGE_PAGE) }
}

/// For each product id in turn, its interfaces on the HID++ usage page.
pub open spec fn g933_series(infos: Seq<HidInfo>, pids: Seq<u16>) -> Seq<(usize, G933Model)>
    decreases pids.len(),
{
    if pids.len() == 0 {
        Seq::empty()
    } else {
        g933_series(infos, pids.drop_last()) + tag(
            matching(infos, g933_filter(pids.last())),
            g933_model(pids.last()),
        )
    }
}

pub open spec fn g933_plan(infos: Seq<HidInfo>) -> Seq<(usize, G933Model)> {
    g933_series(infos, G633_PIDS@)
}

impl LogitechG933 {
    pub fn new(model: G933Model) -> (r: LogitechG933)
        ensures
            r@ == (model, initial_battery()),
    {
        LogitechG933 { model, battery: Battery::new() }
    }

    /// The enumerated interfaces to open and query, in order, with the
    /// model each belongs to; the first that answers is the headset.
    pub fn discover(infos: &[HidInfo]) -> (r: Vec<(usize, G933Model)>)
        ensures
            r@ == g933_plan(infos@),
    {
        let pids = G633_PIDS;
        let mut plan: Vec<(usize, G933Model)> = Vec::new();
        let n = pids.len();
        let mut k: usize = 0;
        while k < n
            invariant
                n == pids@.len(),
                pids@ == G633_PIDS@,
                0 <= k <= n,
                plan@ == g933_series(infos@, pids@.subrange(0, k as int)),
            decreases n - k,
        {
            let pid = pids[k];
            let found = find_matching(
                infos,
                &HidFilter {
                    vendor_id: LOGITECH_VID,
                    product_id: pid,
                    port: Port::UsagePage(HIDPP_USAGE_PAGE),
                },
            );
            push_tagged(&mut plan, &found, g933_model_of(pid));
            let ghost pre = pids@.subrange(0, k + 1);
            assert(pre.drop_last() =~= pids@.subrange(0, k as int));
            assert(pre.last() == pid);
            assert(plan@ =~= g933_series(infos@, pre));
            k = k + 1;
        }
        assert(pids@.subrange(0, n as int) =~= pids@);
        plan
    }

    /// The battery query to write.
    pub fn battery_request() -> (r: [u8; 20])
        ensures
            r@ == voltage_request(),
    {
        voltage_battery_request()
    }

    /// Take in the reply, converting the voltage by the G933 table.
    pub fn handle_battery_response(&mut self, response: &[u8; 20], bytes_read: usize) -> (r: Result<
        (),
        DeviceError,
    >)
        ensures
            final(self)@.0 == old(self)@.0,
            (final(self)@.1, result_view(r)) == voltage_reply(
                old(self)@.1,
                response@,
                bytes_read,
                G933_CALIBRATION@,
            ),
    {
        proof {
            lemma_calibrations_well_formed();
        }
        let table = G933_CALIBRATION;
        handle_voltage_response(&mut self.battery, response, bytes_read, &table)
    }

    pub fn id(&self) -> (r: &'static str)
        ensures
            r@ == "logitech-g933"@,
    {
        "logitech-g933"
    }

    pub fn name(&self) -> (r: &'static str)
        ensures
            r@ == g933_model_name(self@.0),
    {
        match self.model {
            G933Model::G633 => "G633",
            G933Model::G933 => "G933",
            G933Model::G935 => "G935",
            G933Model::G635 => "G635",
            G933Model::G733 => "G733",
            G933Model::GSeries => "G-Series",
        }
    }

    pub fn icon(&self) -> (r: DeviceIcon)
        ensures
            r == DeviceIcon::Headset,
    {
        DeviceIcon::Headset
    }

    pub fn battery_percent(&self) -> (r: Option<u8>)
        ensures
            r == self@.1.battery_percent,
            r matches Some(p) ==> p <= 100,
    {
        self.battery.battery_percent()
    }

    pub fn charging_state(&self) -> (r: ChargingState)
        ensures
            r == self@.1.charging_state,
    {
        self.battery.charging_state()
    }

    pub fn is_connected(&self) -> (r: bool)
        ensures
            r == self@.1.connected,
    {
        self.battery.is_connected()
    }
}

/// A HID++ battery reply from a headset that is on (byte 2 not 0xFF) with
/// a voltage within 3000..=4500 mV is a reading at the calibrated
/// percentage: charging exactly when byte 6 is 0x03, otherwise full at 100
/// and on battery below.  Byte 2 of 0xFF marks the headset disconnected.
pub proof fn lemma_voltage_reply_charging(
    b: BatteryView,
    response: Seq<u8>,
    bytes_read: usize,
    cal: Seq<(u16, u8)>,
)
    requires
        response.len() == 20,
        bytes_read > 0,
        calibration_well_formed(cal),
    ensures
        response[2] == 0xFF ==> voltage_reply(b, response, bytes_read, cal) == (
            BatteryView { connected: false, ..b },
            Ok::<(), (ErrorKind, Seq<char>)>(()),
        ),
        ({
            let v = response[4] * 256 + response[5];
            let (after, outcome) = voltage_reply(b, response, bytes_read, cal);
            response[2] != 0xFF && 3000 <= v <= 4500 ==> {
                let p = voltage_percent(v as u16, cal);
                &&& outcome == Ok::<(), (ErrorKind, Seq<char>)>(())
                &&& after.connected
                &&& after.battery_percent == Some(p as u8)
                &&& response[6] == 3 <==> after.charging_state == ChargingState::Charging
                &&& (response[6] != 3 && p == 100) <==> after.charging_state
                    == ChargingState::Full
                &&& (response[6] != 3 && p < 100) <==> after.charging_state
                    == ChargingState::Discharging
            }
        }),
{
    let v = response[4] * 256 + response[5];
    if response[2] != 0xFF && 3000 <= v <= 4500 {
        lemma_voltage_percent_in_range(v as u16, cal);
    }
}

/// A G Pro X 2 battery report (0x51 0x0B, byte 8 of 0x04) with a level of
/// at most 100 in byte 10 ends the exchange with that reading: charging
/// exactly when byte 12 is 0x02, otherwise full at 100 and on battery
/// below.  A power-off notice (0x51 0x05, byte 6 of 0) ends it with the
/// headset disconnected.
pub proof fn lemma_gpro_x2_report_charging(
    b: BatteryView,
    attempt: u32,
    response: Seq<u8>,
    bytes_read: usize,
)
    requires
        response.len() == 64,
        bytes_read > 0,
        response[0] == 0x51,
    ensures
        response[1] == 0x05 && response[6] == 0 ==> gpro_x2_report(
            b,
            attempt,
            response,
            bytes_read,
        ) == (BatteryView { connected: false, ..b }, Some(Ok::<(), (ErrorKind, Seq<char>)>(()))),
        ({
            let (after, outcome) = gpro_x2_report(b, attempt, response, bytes_read);
            let level = response[10];
            response[1] == 0x0B && response[8] == 0x04 && level <= 100 ==> {
                &&& outcome == Some(Ok::<(), (ErrorKind, Seq<char>)>(()))
                &&& after.connected
                &&& after.battery_percent == Some(level)
                &&& response[12] == 2 <==> after.charging_state == ChargingState::Charging
                &&& (response[12] != 2 && level == 100) <==> after.charging_state
                    == ChargingState::Full
                &&& (response[12] != 2 && level < 100) <==> after.charging_state
                    == ChargingState::Discharging
            }
        }),
{
}

} // verus!
