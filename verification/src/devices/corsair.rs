//! Corsair Void and Virtuoso headsets.
//!
//! One 64-byte request `C9 64`; the reply carries the level in byte 2 (bit 7
//! is the microphone flag) and the headset status in byte 4.

use vstd::prelude::*;

use crate::device::{
    comm_failure, communication_error, protocol_error, protocol_failure, result_view, ChargingState,
    DeviceError, DeviceIcon, ErrorKind,
};
use crate::devices::battery::{
    disconnected, initial_battery, offline, reading, Battery, BatteryView,
};
use crate::hid::{find_matching, matching, padded, push_tagged, tag, HidFilter, HidInfo, Port};

verus! {

pub const CORSAIR_VID: u16 = 0x1B1C;

/// Void Wireless, Void Pro Wireless, Void Pro USB, Void Pro Wireless (2019),
/// Void Elite Wireless, Void RGB Elite Wireless, Void RGB Elite USB, and the
/// older Void Wireless and Void Pro Wireless.
pub const VOID_PIDS: [u16; 9] = [0x0A14, 0x0A16, 0x0A17, 0x0A1A, 0x0A55, 0x0A51, 0x0A65, 0x1B27, 0x1B2A];

/// Virtuoso RGB Wireless (two ids), SE and XT.
pub const VIRTUOSO_PIDS: [u16; 4] = [0x0A40, 0x0A41, 0x0A42, 0x0A44];

pub const TARGET_USAGE_PAGE: u16 = 0xFFC5;

pub const TARGET_INTERFACE: i32 = 3;

pub const MSG_SIZE: usize = 64;

/// The two headset series, which share the protocol.
#[derive(Debug, Clone, Copy, PartialEq, Eq, Structural)]
pub enum CorsairModel {
    Void,
    Virtuoso,
}

pub open spec fn corsair_model_name(m: CorsairModel) -> Seq<char> {
    match m {
        CorsairModel::Void => "Corsair Void"@,
        CorsairModel::Virtuoso => "Corsair Virtuoso"@,
    }
}

/// A Corsair Void or Virtuoso headset.
#[derive(Debug, Clone, Copy)]
pub struct CorsairVoid {
    model: CorsairModel,
    battery: Battery,
}

impl View for CorsairVoid {
    type V = (CorsairModel, BatteryView);

    closed spec fn view(&self) -> (CorsairModel, BatteryView) {
        (self.model, self.battery@)
    }
}

pub open spec fn usage_page_filter(pid: u16) -> HidFilter {
    HidFilter { vendor_id: CORSAIR_VID, product_id: pid, port: Port::UsagePage(TARGET_USAGE_PAGE) }
}

pub open spec fn interface_filter(pid: u16) -> HidFilter {
    HidFilter { vendor_id: CORSAIR_VID, product_id: pid, port: Port::Interface(TARGET_INTERFACE) }
}

/// For each product id in turn: the interfaces on the vendor usage page,
/// then those numbered 3.
pub open spec fn corsair_series(infos: Seq<HidInfo>, pids: Seq<u16>, model: CorsairModel) -> Seq<
    (usize, CorsairModel),
>
    decreases pids.len(),
{
    if pids.len() == 0 {
        Seq::empty()
    } else {
        corsair_series(infos, pids.drop_last(), model) + tag(
            matching(infos, usage_page_filter(pids.last())),
            model,
        ) + tag(matching(infos, interface_filter(pids.last())), model)
    }
}

/// The interfaces to try, in order, with the series each belongs to: all
/// Void product ids first, then the Virtuoso ones.
pub open spec fn corsair_plan(infos: Seq<HidInfo>) -> Seq<(usize, CorsairModel)> {
    corsair_series(infos, VOID_PIDS@, CorsairModel::Void) + corsair_series(
        infos,
        VIRTUOSO_PIDS@,
        CorsairModel::Virtuoso,
    )
}

/// What one reply does to the reading, and what the poll returns.
pub open spec fn corsair_reply(b: BatteryView, response: Seq<u8>, bytes_read: usize) -> (
    BatteryView,
    Result<(), (ErrorKind, Seq<char>)>,
) {
    let level = response[2] & 0x7F;
    let status = response[4];
    if bytes_read < 5 {
        (disconnected(b), comm_failure("Short response"@))
    } else if status == 0 {
        (offline(b), Ok(()))
    } else if level > 100 {
        (b, protocol_failure("Invalid battery value"@))
    } else {
        let charging = if status == 4 || status == 5 {
            ChargingState::Charging
        } else if level >= 100 {
            ChargingState::Full
        } else {
            ChargingState::Discharging
        };
        (reading(level, charging), Ok(()))
    }
}

fn add_series(plan: &mut Vec<(usize, CorsairModel)>, infos: &[HidInfo], pids: &[u16], model: CorsairModel)
    ensures
        final(plan)@ == old(plan)@ + corsair_series(infos@, pids@, model),
{
    let ghost start = plan@;
    let n = pids.len();
    let mut k: usize = 0;
    while k < n
        invariant
            n == pids@.len(),
            0 <= k <= n,
            plan@ == start + corsair_series(infos@, pids@.subrange(0, k as int), model),
        decreases n - k,
    {
        let pid = pids[k];
        let ghost before = plan@;
        let by_page = find_matching(
            infos,
            &HidFilter { vendor_id: CORSAIR_VID, product_id: pid, port: Port::UsagePage(TARGET_USAGE_PAGE) },
        );
        push_tagged(plan, &by_page, model);
        let by_interface = find_matching(
            infos,
            &HidFilter { vendor_id: CORSAIR_VID, product_id: pid, port: Port::Interface(TARGET_INTERFACE) },
        );
        push_tagged(plan, &by_interface, model);
        let ghost pre = pids@.subrange(0, k + 1);
        assert(pre.drop_last() =~= pids@.subrange(0, k as int));
        assert(pre.last() == pid);
        assert(plan@ =~= start + corsair_series(infos@, pre, model));
        k = k + 1;
    }
    assert(pids@.subrange(0, n as int) =~= pids@);
}

impl CorsairVoid {
    /// A headset of the given series, just opened.
    pub fn new(model: CorsairModel) -> (r: CorsairVoid)
        ensures
            r@ == (model, initial_battery()),
    {
        CorsairVoid { model, battery: Battery::new() }
    }

    /// The enumerated interfaces to open and query, in the order to try
    /// them; the first that answers a battery query is the headset.
    pub fn discover(infos: &[HidInfo]) -> (r: Vec<(usize, CorsairModel)>)
        ensures
            r@ == corsair_plan(infos@),
    {
        let mut plan: Vec<(usize, CorsairModel)> = Vec::new();
        let void_pids = VOID_PIDS;
        let virtuoso_pids = VIRTUOSO_PIDS;
        add_series(&mut plan, infos, &void_pids, CorsairModel::Void);
        add_series(&mut plan, infos, &virtuoso_pids, CorsairModel::Virtuoso);
        assert(plan@ =~= corsair_plan(infos@));
        plan
    }

    /// The battery query to write.
    pub fn battery_request() -> (r: [u8; 64])
        ensures
            r@ == padded(seq![0xC9u8, 0x64u8], 64),
    {
        let mut r = [0u8; 64];
        r[0] = 0xC9;
        r[1] = 0x64;
        assert(r@ =~= padded(seq![0xC9u8, 0x64u8], 64));
        r
    }

    /// Take in the reply to the battery query (`bytes_read` of the buffer
    /// were filled).
    pub fn handle_battery_response(&mut self, response: &[u8; 64], bytes_read: usize) -> (r: Result<
        (),
        DeviceError,
    >)
        ensures
            final(self)@.0 == old(self)@.0,
            (final(self)@.1, result_view(r)) == corsair_reply(old(self)@.1, response@, bytes_read),
    {
        if bytes_read < 5 {
            self.battery.set_disconnected();
            return Err(communication_error("Short response"));
        }
        let level = response[2] & 0x7F;
        let status = response[4];
        if status == 0 {
            self.battery.set_offline();
            return Ok(());
        }
        if level > 100 {
            return Err(protocol_error("Invalid battery value"));
        }
        let charging = if status == 4 || status == 5 {
            ChargingState::Charging
        } else if level >= 100 {
            ChargingState::Full
        } else {
            ChargingState::Discharging
        };
        self.battery.set_reading(level, charging);
        Ok(())
    }

    pub fn id(&self) -> (r: &'static str)
        ensures
            r@ == "corsair-void"@,
    {
        "corsair-void"
    }

    pub fn name(&self) -> (r: &'static str)
        ensures
            r@ == corsair_model_name(self@.0),
    {
        match self.model {
            CorsairModel::Void => "Corsair Void",
            CorsairModel::Virtuoso => "Corsair Virtuoso",
        }
    }

    pub fn icon(&self) -> (r: DeviceIcon)
        ensures
            r == DeviceIcon::Headset,
    {
        DeviceIcon::Headset
    }

    pub fn battery_percent(&self) -> (r: Option<u8>)
        ensures
            r == self@.1.battery_percent,
            r matches Some(p) ==> p <= 100,
    {
        self.battery.battery_percent()
    }

    pub fn charging_state(&self) -> (r: ChargingState)
        ensures
            r == self@.1.charging_state,
    {
        self.battery.charging_state()
    }

    pub fn is_connected(&self) -> (r: bool)
        ensures
            r == self@.1.connected,
    {
        self.battery.is_connected()
    }
}

/// A Corsair reply of at least five bytes whose status byte (byte 4) is
/// not 0 and whose level (byte 2 without its top bit, the microphone flag)
/// is at most 100 is a reading of that level: charging exactly when the
/// status is 4 or 5, whatever the level; otherwise full at 100 and on
/// battery below.
pub proof fn lemma_corsair_charging_status(b: BatteryView, response: Seq<u8>, bytes_read: usize)
    requires
        response.len() == 64,
        bytes_read >= 5,
        response[4] != 0,
        response[2] % 128 <= 100,
    ensures
        ({
            let (after, outcome) = corsair_reply(b, response, bytes_read);
            let status = response[4];
            let level = response[2] % 128;
            &&& outcome == Ok::<(), (ErrorKind, Seq<char>)>(())
            &&& after.connected
            &&& after.battery_percent == Some(level as u8)
            &&& (status == 4 || status == 5) <==> after.charging_state
                == ChargingState::Charging
            &&& (status != 4 && status != 5 && level == 100) <==> after.charging_state
                == ChargingState::Full
            &&& (status != 4 && status != 5 && level < 100) <==> after.charging_state
                == ChargingState::Discharging
        }),
{
    let r2 = response[2];
    assert(r2 & 0x7F == r2 % 128) by (bit_vector);
}

} // verus!
