//! Logitech G Pro X Superlight 2 / 2c mice over HID++ 2.0.
//!
//! The receiver is first asked where the UNIFIED_BATTERY feature (0x1004)
//! sits; then that feature's GET_STATUS is queried, skipping the
//! notifications that arrive in between.

use vstd::prelude::*;

use crate::device::{
    comm_failure, communication_error, protocol_error, protocol_failure, result_view, step_view,
    ChargingState, DeviceError, DeviceIcon, ErrorKind, ReportStep,
};
use crate::devices::battery::{disconnected, initial_battery, reading, Battery, BatteryView};
use crate::hid::{find_matching, matching, padded, HidFilter, HidInfo, Port};

verus! {

pub const LOGITECH_VID: u16 = 0x046d;

/// G Pro X Superlight, the common Lightspeed receiver, the Superlight 2
/// receiver, a Superlight variant, and the first id once more.
pub const SUPERLIGHT_PIDS: [u16; 5] = [0xc547, 0xc54d, 0xc09b, 0x0af7, 0xc547];

pub const HIDPP_USAGE_PAGE: u16 = 0xFF00;

pub const REPORT_ID_LONG: u8 = 0x11;

pub const LONG_REPORT_LEN: usize = 20;

/// Index of the first paired device.
pub const DEVICE_INDEX: u8 = 0x01;

pub const FEATURE_UNIFIED_BATTERY: u16 = 0x1004;

pub const FUNC_ROOT_GET_FEATURE: u8 = 0x00;

pub const FUNC_BATTERY_GET_STATUS: u8 = 0x10;

/// Software id, ORed into the function byte.
pub const SOFTWARE_ID: u8 = 0x01;

/// Reports read after a battery query before giving up.
pub const MAX_BATTERY_READS: u32 = 5;

/// A G Pro X Superlight mouse.
#[derive(Debug, Clone, Copy)]
pub struct LogitechSuperlight {
    battery_feature_index: Option<u8>,
    battery: Battery,
}

impl View for LogitechSuperlight {
    type V = (Option<u8>, BatteryView);

    closed spec fn view(&self) -> (Option<u8>, BatteryView) {
        (self.battery_feature_index, self.battery@)
    }
}

/// Interfaces of product `pid` that `port` accepts.
pub open spec fn superlight_filter(pid: u16, port: Port) -> HidFilter {
    HidFilter { vendor_id: LOGITECH_VID, product_id: pid, port }
}

/// For each product id in turn, its interfaces that `port` accepts.
pub open spec fn superlight_pass(infos: Seq<HidInfo>, pids: Seq<u16>, port: Port) -> Seq<usize>
    decreases pids.len(),
{
    if pids.len() == 0 {
        Seq::empty()
    } else {
        superlight_pass(infos, pids.drop_last(), port) + matching(
            infos,
            superlight_filter(pids.last(), port),
        )
    }
}

/// The interfaces to try: first those on the HID++ usage page, product id
/// by product id; then every interface of those products.
pub open spec fn superlight_plan(infos: Seq<HidInfo>) -> Seq<usize> {
    superlight_pass(infos, SUPERLIGHT_PIDS@, Port::UsagePage(HIDPP_USAGE_PAGE)) + superlight_pass(
        infos,
        SUPERLIGHT_PIDS@,
        Port::Any,
    )
}

/// The ROOT `get_feature` query for UNIFIED_BATTERY.
pub open spec fn feature_request_bytes() -> Seq<u8> {
    padded(seq![0x11u8, 0x01u8, 0x00u8, 0x01u8, 0x10u8, 0x04u8], 20)
}

/// The UNIFIED_BATTERY `get_status` query to the feature at `index`.
pub open spec fn battery_request_bytes(index: u8) -> Seq<u8> {
    padded(seq![0x11u8, 0x01u8, index, 0x11u8], 20)
}

/// What the reply to the feature query does to the feature index, and
/// the outcome.
pub open spec fn feature_reply(index: Option<u8>, response: Seq<u8>, bytes_read: usize) -> (
    Option<u8>,
    Result<(), (ErrorKind, Seq<char>)>,
) {
    if bytes_read == 0 {
        (index, comm_failure("No response from device"@))
    } else if response[0] != REPORT_ID_LONG || response[1] != DEVICE_INDEX {
        (index, protocol_failure("Invalid response header"@))
    } else if response[2] == 0xFF {
        (index, protocol_failure("Device returned error response"@))
    } else if response[4] == 0 {
        (index, protocol_failure("UNIFIED_BATTERY feature not supported"@))
    } else {
        (Some(response[4]), Ok(()))
    }
}

/// The percentage the level flags stand for when the state of charge is
/// not a percentage: full, good, low, critical, else unknown.
pub open spec fn level_estimate(flags: u8) -> u8 {
    if flags & 0x08 != 0 {
        100
    } else if flags & 0x04 != 0 {
        60
    } else if flags & 0x02 != 0 {
        20
    } else if flags & 0x01 != 0 {
        5
    } else {
        50
    }
}

pub open spec fn superlight_charge(status: u8) -> ChargingState {
    if status == 0 {
        ChargingState::Discharging
    } else if status == 1 || status == 2 {
        ChargingState::Charging
    } else if status == 3 {
        ChargingState::Full
    } else {
        ChargingState::Unknown
    }
}

/// Whether a report answers the battery query to the feature at `index`.
pub open spec fn answers_battery_query(response: Seq<u8>, index: u8) -> bool {
    response[1] == DEVICE_INDEX && response[2] == index && response[3] & 0xF0 == 0x10
}

/// What report number `attempt` (from 0) after the battery query does.
/// An empty read ends the exchange with the mouse disconnected; the answer
/// ends it with a reading (byte 4 the percentage, byte 5 the level flags,
/// byte 6 the charging status); anything else waits for the next report,
/// up to five reports.
pub open spec fn superlight_report(
    index: Option<u8>,
    b: BatteryView,
    attempt: u32,
    response: Seq<u8>,
    bytes_read: usize,
) -> (BatteryView, Option<Result<(), (ErrorKind, Seq<char>)>>) {
    match index {
        None => (b, Some(protocol_failure("Battery feature not discovered"@))),
        Some(idx) => {
            if bytes_read == 0 {
                (disconnected(b), Some(comm_failure("No response from device"@)))
            } else if answers_battery_query(response, idx) {
                let p = if response[4] <= 100 {
                    response[4]
                } else {
                    level_estimate(response[5])
                };
                (reading(p, superlight_charge(response[6])), Some(Ok(())))
            } else if attempt + 1 >= MAX_BATTERY_READS {
                (b, Some(comm_failure("No valid battery response"@)))
            } else {
                (b, None)
            }
        },
    }
}

fn level_estimate_of(flags: u8) -> (r: u8)
    ensures
        r == level_estimate(flags),
        r <= 100,
{
    if flags & 0x08 != 0 {
        100
    } else if flags & 0x04 != 0 {
        60
    } else if flags & 0x02 != 0 {
        20
    } else if flags & 0x01 != 0 {
        5
    } else {
        50
    }
}

fn add_pass(plan: &mut Vec<usize>, infos: &[HidInfo], pids: &[u16], port: Port)
    ensures
        final(plan)@ == old(plan)@ + superlight_pass(infos@, pids@, port),
{
    let ghost start = plan@;
    let n = pids.len();
    let mut k: usize = 0;
    while k < n
        invariant
            n == pids@.len(),
            0 <= k <= n,
            plan@ == start + superlight_pass(infos@, pids@.subrange(0, k as int), port),
        decreases n - k,
    {
        let pid = pids[k];
        let mut found = find_matching(
            infos,
            &HidFilter { vendor_id: LOGITECH_VID, product_id: pid, port },
        );
        plan.append(&mut found);
        let ghost pre = pids@.subrange(0, k + 1);
        assert(pre.drop_last() =~= pids@.subrange(0, k as int));
        assert(pre.last() == pid);
        assert(plan@ =~= start + superlight_pass(infos@, pre, port));
        k = k + 1;
    }
    assert(pids@.subrange(0, n as int) =~= pids@);
}

impl LogitechSuperlight {
    pub fn new() -> (r: LogitechSuperlight)
        ensures
            r@ == (None::<u8>, initial_battery()),
    {
        LogitechSuperlight { battery_feature_index: None, battery: Battery::new() }
    }

    /// The enumerated interfaces to open, in order; the first on which the
    /// battery feature is found is the mouse.
    pub fn discover(infos: &[HidInfo]) -> (r: Vec<usize>)
        ensures
            r@ == superlight_plan(infos@),
    {
        let pids = SUPERLIGHT_PIDS;
        let mut plan: Vec<usize> = Vec::new();
        add_pass(&mut plan, infos, &pids, Port::UsagePage(HIDPP_USAGE_PAGE));
        add_pass(&mut plan, infos, &pids, Port::Any);
        plan
    }

    /// Whether the battery feature still has to be located before a poll.
    pub fn needs_feature_discovery(&self) -> (r: bool)
        ensures
            r == (self@.0 is None),
    {
        self.battery_feature_index.is_none()
    }

    /// The query that locates the battery feature.
    pub fn feature_request() -> (r: [u8; 20])
        ensures
            r@ == feature_request_bytes(),
    {
        let mut r = [0u8; 20];
        r[0] = REPORT_ID_LONG;
        r[1] = DEVICE_INDEX;
        r[2] = 0x00;
        r[3] = FUNC_ROOT_GET_FEATURE | SOFTWARE_ID;
        r[4] = (FEATURE_UNIFIED_BATTERY >> 8) as u8;
        r[5] = (FEATURE_UNIFIED_BATTERY & 0xFF) as u8;
        assert(FUNC_ROOT_GET_FEATURE | SOFTWARE_ID == 0x01u8) by (bit_vector);
        assert((FEATURE_UNIFIED_BATTERY >> 8) as u8 == 0x10u8) by (bit_vector);
        assert((FEATURE_UNIFIED_BATTERY & 0xFF) as u8 == 0x04u8) by (bit_vector);
        assert(r@ =~= feature_request_bytes());
        r
    }

    /// Take in the reply to the feature query.
    pub fn handle_feature_response(&mut self, response: &[u8; 20], bytes_read: usize) -> (r: Result<
        (),
        DeviceError,
    >)
        ensures
            final(self)@.1 == old(self)@.1,
            (final(self)@.0, result_view(r)) == feature_reply(old(self)@.0, response@, bytes_read),
    {
        if bytes_read == 0 {
            return Err(communication_error("No response from device"));
        }
        if response[0] != REPORT_ID_LONG || response[1] != DEVICE_INDEX {
            return Err(protocol_error("Invalid response header"));
        }
        if response[2] == 0xFF {
            return Err(protocol_error("Device returned error response"));
        }
        let feature_index = response[4];
        if feature_index == 0 {
            return Err(protocol_error("UNIFIED_BATTERY feature not supported"));
        }
        self.battery_feature_index = Some(feature_index);
        Ok(())
    }

    /// The battery query to write, once the feature is located.
    pub fn battery_request(&self) -> (r: Result<[u8; 20], DeviceError>)
        ensures
            match self@.0 {
                None => r matches Err(e) && e@ == (
                    ErrorKind::ProtocolError,
                    "Battery feature not discovered"@,
                ),
                Some(idx) => r matches Ok(bytes) && bytes@ == battery_request_bytes(idx),
            },
    {
        match self.battery_feature_index {
            None => Err(protocol_error("Battery feature not discovered")),
            Some(idx) => {
                let mut r = [0u8; 20];
                r[0] = REPORT_ID_LONG;
                r[1] = DEVICE_INDEX;
                r[2] = idx;
                r[3] = FUNC_BATTERY_GET_STATUS | SOFTWARE_ID;
                assert(FUNC_BATTERY_GET_STATUS | SOFTWARE_ID == 0x11u8) by (bit_vector);
                assert(r@ =~= battery_request_bytes(idx));
                Ok(r)
            },
        }
    }

    /// Take in report number `attempt` (from 0) after the battery query.
    pub fn handle_battery_report(&mut self, attempt: u32, response: &[u8; 20], bytes_read: usize) -> (r:
        ReportStep)
        ensures
            final(self)@.0 == old(self)@.0,
            (final(self)@.1, step_view(r)) == superlight_report(
                old(self)@.0,
                old(self)@.1,
                attempt,
                response@,
                bytes_read,
            ),
    {
        let idx = match self.battery_feature_index {
            None => {
                return ReportStep::Done(Err(protocol_error("Battery feature not discovered")));
            },
            Some(i) => i,
        };
        if bytes_read == 0 {
            self.battery.set_disconnected();
            return ReportStep::Done(Err(communication_error("No response from device")));
        }
        if response[1] == DEVICE_INDEX && response[2] == idx && (response[3] & 0xF0) == (
        FUNC_BATTERY_GET_STATUS & 0xF0) {
            assert(FUNC_BATTERY_GET_STATUS & 0xF0 == 0x10u8) by (bit_vector);
            let percent = if response[4] <= 100 {
                response[4]
            } else {
                level_estimate_of(response[5])
            };
            let status = response[6];
            let charging = if status == 0 {
                ChargingState::Discharging
            } else if status == 1 || status == 2 {
                ChargingState::Charging
            } else if status == 3 {
                ChargingState::Full
            } else {
                ChargingState::Unknown
            };
            self.battery.set_reading(percent, charging);
            return ReportStep::Done(Ok(()));
        }
        assert(FUNC_BATTERY_GET_STATUS & 0xF0 == 0x10u8) by (bit_vector);
        if attempt >= MAX_BATTERY_READS - 1 {
            return ReportStep::Done(Err(communication_error("No valid battery response")));
        }
        ReportStep::Pending
    }

    pub fn id(&self) -> (r: &'static str)
        ensures
            r@ == "logitech-superlight-2"@,
    {
        "logitech-superlight-2"
    }

    pub fn name(&self) -> (r: &'static str)
        ensures
            r@ == "Pro X Superlight 2c"@,
    {
        "Pro X Superlight 2c"
    }

    pub fn icon(&self) -> (r: DeviceIcon)
        ensures
            r == DeviceIcon::Mouse,
    {
        DeviceIcon::Mouse
    }

    pub fn battery_percent(&self) -> (r: Option<u8>)
        ensures
            r == self@.1.battery_percent,
            r matches Some(p) ==> p <= 100,
    {
        self.battery.battery_percent()
    }

    pub fn charging_state(&self) -> (r: ChargingState)
        ensures
            r == self@.1.charging_state,
    {
        self.battery.charging_state()
    }

    pub fn is_connected(&self) -> (r: bool)
        ensures
            r == self@.1.connected,
    {
        self.battery.is_connected()
    }
}

/// The answer to GET_STATUS (report on the device, the feature's index in
/// byte 2, function 1 in the high nibble of byte 3) ends the exchange
/// successfully with the mouse connected, at the state of charge in byte 4
/// when that is a percentage (else estimated from the level flags in byte
/// 5: full 100, good 60, low 20, critical 5, none 50), and charging as
/// byte 6 says: 0 on battery,
/// 1 or 2 charging, 3 full, anything else unknown.  In particular a mouse
/// on battery is never shown charging.
pub proof fn lemma_superlight_status_answer(
    idx: u8,
    b: BatteryView,
    attempt: u32,
    response: Seq<u8>,
    bytes_read: usize,
)
    requires
        response.len() == 20,
        bytes_read > 0,
        response[1] == 0x01,
        response[2] == idx,
        0x10 <= response[3] < 0x20,
    ensures
        ({
            let (after, outcome) = superlight_report(Some(idx), b, attempt, response, bytes_read);
            let status = response[6];
            &&& outcome == Some(Ok::<(), (ErrorKind, Seq<char>)>(()))
            &&& after.connected
            &&& response[4] <= 100 ==> after.battery_percent == Some(response[4])
            &&& response[4] > 100 ==> after.battery_percent == Some(
                if (response[5] / 8) % 2 == 1 {
                    100u8
                } else if (response[5] / 4) % 2 == 1 {
                    60u8
                } else if (response[5] / 2) % 2 == 1 {
                    20u8
                } else if response[5] % 2 == 1 {
                    5u8
                } else {
                    50u8
                },
            )
            &&& status == 0 <==> after.charging_state == ChargingState::Discharging
            &&& (status == 1 || status == 2) <==> after.charging_state == ChargingState::Charging
            &&& status == 3 <==> after.charging_state == ChargingState::Full
            &&& status > 3 <==> after.charging_state == ChargingState::Unknown
        }),
{
    let r3 = response[3];
    assert(0x10 <= r3 < 0x20 ==> r3 & 0xF0 == 0x10) by (bit_vector);
    let f = response[5];
    assert((f & 0x08 != 0) == ((f / 8) % 2 == 1)) by (bit_vector);
    assert((f & 0x04 != 0) == ((f / 4) % 2 == 1)) by (bit_vector);
    assert((f & 0x02 != 0) == ((f / 2) % 2 == 1)) by (bit_vector);
    assert((f & 0x01 != 0) == (f % 2 == 1)) by (bit_vector);
}

} // verus!
