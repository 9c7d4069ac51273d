//! SteelSeries Arctis headsets: the Nova 5 series and the older Arctis 7 /
//! Pro Wireless series, each with its own protocol.

use vstd::prelude::*;

use crate::device::{
    comm_failure, communication_error, protocol_error, protocol_failure, result_view, ChargingState,
    DeviceError, DeviceIcon, ErrorKind,
};
use crate::devices::battery::{
    charge_from, charge_state_from, disconnected, initial_battery, offline, reading, Battery,
    BatteryView,
};
use crate::hid::{find_matching, matching, padded, push_tagged, tag, HidFilter, HidInfo, Port};

verus! {

pub const STEELSERIES_VID: u16 = 0x1038;

/// Arctis Nova 5 and Nova 5X base stations.
pub const ARCTIS_NOVA_5_PIDS: [u16; 2] = [0x2232, 0x2253];

pub const NOVA5_INTERFACE: i32 = 3;

pub const NOVA5_USAGE_PAGE: u16 = 0xFFC0;

pub const NOVA5_HEADSET_OFFLINE: u8 = 0x02;

pub const NOVA5_HEADSET_CHARGING: u8 = 0x01;

/// Arctis 7 (2017), Arctis 7 (2019), Arctis Pro Wireless, Arctis 7P,
/// Arctis 7P+, Arctis 7+.
pub const ARCTIS_7_PIDS: [u16; 6] = [0x1260, 0x12AD, 0x1252, 0x1280, 0x1284, 0x12B3];

pub const ARCTIS7_INTERFACE: i32 = 5;

/// Models of the Nova 5 series.
#[derive(Debug, Clone, Copy, PartialEq, Eq, Structural)]
pub enum NovaModel {
    Nova5,
    Nova5X,
    Nova,
}

pub open spec fn nova_model(pid: u16) -> NovaModel {
    if pid == 0x2232 {
        NovaModel::Nova5
    } else if pid == 0x2253 {
        NovaModel::Nova5X
    } else {
        NovaModel::Nova
    }
}

fn nova_model_of(pid: u16) -> (r: NovaModel)
    ensures
        r == nova_model(pid),
{
    if pid == 0x2232 {
        NovaModel::Nova5
    } else if pid == 0x2253 {
        NovaModel::Nova5X
    } else {
        NovaModel::Nova
    }
}

pub open spec fn nova_model_name(m: NovaModel) -> Seq<char> {
    match m {
        NovaModel::Nova5 => "Arctis Nova 5"@,
        NovaModel::Nova5X => "Arctis Nova 5X"@,
        NovaModel::Nova => "Arctis Nova"@,
    }
}

/// An Arctis Nova 5 series headset.
#[derive(Debug, Clone, Copy)]
pub struct SteelSeriesArctis {
    model: NovaModel,
    battery: Battery,
}

impl View for SteelSeriesArctis {
    type V = (NovaModel, BatteryView);

    closed spec fn view(&self) -> (NovaModel, BatteryView) {
        (self.model, self.battery@)
    }
}

pub open spec fn nova_filter(pid: u16) -> HidFilter {
    HidFilter {
        vendor_id: STEELSERIES_VID,
        product_id: pid,
        port: Port::UsagePageAndInterface(NOVA5_USAGE_PAGE, NOVA5_INTERFACE),
    }
}

pub open spec fn nova_fallback_filter(pid: u16) -> HidFilter {
    HidFilter {
        vendor_id: STEELSERIES_VID,
        product_id: pid,
        port: Port::Interface(NOVA5_INTERFACE),
    }
}

/// For each product id in turn: interface 3 on the vendor usage page, then
/// any interface 3.
pub open spec fn nova_series(infos: Seq<HidInfo>, pids: Seq<u16>) -> Seq<(usize, NovaModel)>
    decreases pids.len(),
{
    if pids.len() == 0 {
        Seq::empty()
    } else {
        nova_series(infos, pids.drop_last()) + tag(
            matching(infos, nova_filter(pids.last())),
            nova_model(pids.last()),
        ) + tag(matching(infos, nova_fallback_filter(pids.last())), nova_model(pids.last()))
    }
}

pub open spec fn nova_plan(infos: Seq<HidInfo>) -> Seq<(usize, NovaModel)> {
    nova_series(infos, ARCTIS_NOVA_5_PIDS@)
}

/// What the status reply (a 128-byte buffer) does: byte 1 tells whether the
/// headset is offline, byte 3 holds the level, byte 4 the charging flag.
pub open spec fn nova_reply(b: BatteryView, response: Seq<u8>, bytes_read: usize) -> (
    BatteryView,
    Result<(), (ErrorKind, Seq<char>)>,
) {
    let level = response[3];
    if bytes_read == 0 {
        (disconnected(b), comm_failure("No response from device"@))
    } else if response[1] == NOVA5_HEADSET_OFFLINE {
        (offline(b), Ok(()))
    } else if level > 100 {
        (b, protocol_failure("Invalid battery value"@))
    } else {
        (reading(level, charge_from(response[4] == NOVA5_HEADSET_CHARGING, level)), Ok(()))
    }
}

impl SteelSeriesArctis {
    pub fn new(model: NovaModel) -> (r: SteelSeriesArctis)
        ensures
            r@ == (model, initial_battery()),
    {
        SteelSeriesArctis { model, battery: Battery::new() }
    }

    /// The enumerated interfaces to open and query, in order, with the
    /// model each belongs to; the first that answers is the headset.
    pub fn discover(infos: &[HidInfo]) -> (r: Vec<(usize, NovaModel)>)
        ensures
            r@ == nova_plan(infos@),
    {
        let pids = ARCTIS_NOVA_5_PIDS;
        let mut plan: Vec<(usize, NovaModel)> = Vec::new();
        let n = pids.len();
        let mut k: usize = 0;
        while k < n
            invariant
                n == pids@.len(),
                pids@ == ARCTIS_NOVA_5_PIDS@,
                0 <= k <= n,
                plan@ == nova_series(infos@, pids@.subrange(0, k as int)),
            decreases n - k,
        {
            let pid = pids[k];
            let model = nova_model_of(pid);
            let primary = find_matching(
                infos,
                &HidFilter {
                    vendor_id: STEELSERIES_VID,
                    product_id: pid,
                    port: Port::UsagePageAndInterface(NOVA5_USAGE_PAGE, NOVA5_INTERFACE),
                },
            );
            push_tagged(&mut plan, &primary, model);
            let fallback = find_matching(
                infos,
                &HidFilter {
                    vendor_id: STEELSERIES_VID,
                    product_id: pid,
                    port: Port::Interface(NOVA5_INTERFACE),
                },
            );
            push_tagged(&mut plan, &fallback, model);
            let ghost pre = pids@.subrange(0, k + 1);
            assert(pre.drop_last() =~= pids@.subrange(0, k as int));
            assert(pre.last() == pid);
            assert(plan@ =~= nova_series(infos@, pre));
            k = k + 1;
        }
        assert(pids@.subrange(0, n as int) =~= pids@);
        plan
    }

    /// The status query to write.
    pub fn battery_request() -> (r: [u8; 64])
        ensures
            r@ == padded(seq![0x00u8, 0xB0u8], 64),
    {
        let mut r = [0u8; 64];
        r[1] = 0xB0;
        assert(r@ =~= padded(seq![0x00u8, 0xB0u8], 64));
        r
    }

    /// Take in the status reply, of which `bytes_read` bytes were filled.
    pub fn handle_battery_response(&mut self, response: &[u8; 128], bytes_read: usize) -> (r:
        Result<(), DeviceError>)
        ensures
            final(self)@.0 == old(self)@.0,
            (final(self)@.1, result_view(r)) == nova_reply(old(self)@.1, response@, bytes_read),
    {
        if bytes_read == 0 {
            self.battery.set_disconnected();
            return Err(communication_error("No response from device"));
        }
        if response[1] == NOVA5_HEADSET_OFFLINE {
            self.battery.set_offline();
            return Ok(());
        }
        let level = response[3];
        if level > 100 {
            return Err(protocol_error("Invalid battery value"));
        }
        self.battery.set_reading(
            level,
            charge_state_from(response[4] == NOVA5_HEADSET_CHARGING, level),
        );
        Ok(())
    }

    pub fn id(&self) -> (r: &'static str)
        ensures
            r@ == "steelseries-arctis-nova-5"@,
    {
        "steelseries-arctis-nova-5"
    }

    pub fn name(&self) -> (r: &'static str)
        ensures
            r@ == nova_model_name(self@.0),
    {
        match self.model {
            NovaModel::Nova5 => "Arctis Nova 5",
            NovaModel::Nova5X => "Arctis Nova 5X",
            NovaModel::Nova => "Arctis Nova",
        }
    }

    pub fn icon(&self) -> (r: DeviceIcon)
        ensures
            r == DeviceIcon::Headset,
    {
        DeviceIcon::Headset
    }

    pub fn battery_percent(&self) -> (r: Option<u8>)
        ensures
            r == self@.1.battery_percent,
            r matches Some(p) ==> p <= 100,
    {
        self.battery.battery_percent()
    }

    pub fn charging_state(&self) -> (r: ChargingState)
        ensures
            r == self@.1.charging_state,
    {
        self.battery.charging_state()
    }

    pub fn is_connected(&self) -> (r: bool)
        ensures
            r == self@.1.connected,
    {
        self.battery.is_connected()
    }
}

/// Models of the Arctis 7 / Pro Wireless series.
#[derive(Debug, Clone, Copy, PartialEq, Eq, Structural)]
pub enum Arctis7Model {
    Arctis7_2017,
    Arctis7_2019,
    ProWireless,
    Arctis7P,
    Arctis7PPlus,
    Arctis7Plus,
    Arctis7,
}

pub open spec fn arctis7_model(pid: u16) -> Arctis7Model {
    if pid == 0x1260 {
        Arctis7Model::Arctis7_2017
    } else if pid == 0x12AD {
        Arctis7Model::Arctis7_2019
    } else if pid == 0x1252 {
        Arctis7Model::ProWireless
    } else if pid == 0x1280 {
        Arctis7Model::Arctis7P
    } else if pid == 0x1284 {
        Arctis7Model::Arctis7PPlus
    } else if pid == 0x12B3 {
        Arctis7Model::Arctis7Plus
    } else {
        Arctis7Model::Arctis7
    }
}

fn arctis7_model_of(pid: u16) -> (r: Arctis7Model)
    ensures
        r == arctis7_model(pid),
{
    if pid == 0x1260 {
        Arctis7Model::Arctis7_2017
    } else if pid == 0x12AD {
        Arctis7Model::Arctis7_2019
    } else if pid == 0x1252 {
        Arctis7Model::ProWireless
    } else if pid == 0x1280 {
        Arctis7Model::Arctis7P
    } else if pid == 0x1284 {
        Arctis7Model::Arctis7PPlus
    } else if pid == 0x12B3 {
        Arctis7Model::Arctis7Plus
    } else {
        Arctis7Model::Arctis7
    }
}

pub open spec fn arctis7_model_name(m: Arctis7Model) -> Seq<char> {
    match m {
        Arctis7Model::Arctis7_2017 => "Arctis 7 (2017)"@,
        Arctis7Model::Arctis7_2019 => "Arctis 7 (2019)"@,
        Arctis7Model::ProWireless => "Arctis Pro Wireless"@,
        Arctis7Model::Arctis7P => "Arctis 7P"@,
        Arctis7Model::Arctis7PPlus => "Arctis 7P+"@,
        Arctis7Model::Arctis7Plus => "Arctis 7+"@,
        Arctis7Model::Arctis7 => "Arctis 7"@,
    }
}

/// An Arctis 7 / Pro Wireless series headset.
#[derive(Debug, Clone, Copy)]
pub struct SteelSeriesArctis7 {
    model: Arctis7Model,
    battery: Battery,
}

impl View for SteelSeriesArctis7 {
    type V = (Arctis7Model, BatteryView);

    closed spec fn view(&self) -> (Arctis7Model, BatteryView) {
        (self.model, self.battery@)
    }
}

pub open spec fn arctis7_filter(pid: u16) -> HidFilter {
    HidFilter {
        vendor_id: STEELSERIES_VID,
        product_id: pid,
        port: Port::Interface(ARCTIS7_INTERFACE),
    }
}

/// For each product id in turn, its interfaces numbered 5.
pub open spec fn arctis7_series(infos: Seq<HidInfo>, pids: Seq<u16>) -> Seq<(usize, Arctis7Model)>
    decreases pids.len(),
{
    if pids.len() == 0 {
        Seq::empty()
    } else {
        arctis7_series(infos, pids.drop_last()) + tag(
            matching(infos, arctis7_filter(pids.last())),
            arctis7_model(pids.last()),
        )
    }
}

pub open spec fn arctis7_plan(infos: Seq<HidInfo>) -> Seq<(usize, Arctis7Model)> {
    arctis7_series(infos, ARCTIS_7_PIDS@)
}

/// What the 8-byte reply does: byte 2 holds the level; a value above 100
/// means the headset is away from its base station.
pub open spec fn arctis7_reply(b: BatteryView, response: Seq<u8>, bytes_read: usize) -> (
    BatteryView,
    Result<(), (ErrorKind, Seq<char>)>,
) {
    let level = response[2];
    if bytes_read == 0 {
        (disconnected(b), comm_failure("No response"@))
    } else if level > 100 {
        (disconnected(b), Ok(()))
    } else {
        (reading(level, charge_from(false, level)), Ok(()))
    }
}

impl SteelSeriesArctis7 {
    pub fn new(model: Arctis7Model) -> (r: SteelSeriesArctis7)
        ensures
            r@ == (model, initial_battery()),
    {
        SteelSeriesArctis7 { model, battery: Battery::new() }
    }

    /// The enumerated interfaces to open and query, in order, with the
    /// model each belongs to; the first that answers is the headset.
    pub fn discover(infos: &[HidInfo]) -> (r: Vec<(usize, Arctis7Model)>)
        ensures
            r@ == arctis7_plan(infos@),
    {
        let pids = ARCTIS_7_PIDS;
        let mut plan: Vec<(usize, Arctis7Model)> = Vec::new();
        let n = pids.len();
        let mut k: usize = 0;
        while k < n
            invariant
                n == pids@.len(),
                pids@ == ARCTIS_7_PIDS@,
                0 <= k <= n,
                plan@ == arctis7_series(infos@, pids@.subrange(0, k as int)),
            decreases n - k,
        {
            let pid = pids[k];
            let found = find_matching(
                infos,
                &HidFilter {
                    vendor_id: STEELSERIES_VID,
                    product_id: pid,
                    port: Port::Interface(ARCTIS7_INTERFACE),
                },
            );
            push_tagged(&mut plan, &found, arctis7_model_of(pid));
            let ghost pre = pids@.subrange(0, k + 1);
            assert(pre.drop_last() =~= pids@.subrange(0, k as int));
            assert(pre.last() == pid);
            assert(plan@ =~= arctis7_series(infos@, pre));
            k = k + 1;
        }
        assert(pids@.subrange(0, n as int) =~= pids@);
        plan
    }

    /// The battery query to write.
    pub fn battery_request() -> (r: [u8; 8])
        ensures
            r@ == padded(seq![0x06u8, 0x18u8], 8),
    {
        let mut r = [0u8; 8];
        r[0] = 0x06;
        r[1] = 0x18;
        assert(r@ =~= padded(seq![0x06u8, 0x18u8], 8));
        r
    }

    /// Take in the reply, of which `bytes_read` bytes were filled.
    pub fn handle_battery_response(&mut self, response: &[u8; 8], bytes_read: usize) -> (r: Result<
        (),
        DeviceError,
    >)
        ensures
            final(self)@.0 == old(self)@.0,
            (final(self)@.1, result_view(r)) == arctis7_reply(old(self)@.1, response@, bytes_read),
    {
        if bytes_read == 0 {
            self.battery.set_disconnected();
            return Err(communication_error("No response"));
        }
        let level = response[2];
        if level > 100 {
            self.battery.set_disconnected();
            return Ok(());
        }
        self.battery.set_reading(level, charge_state_from(false, level));
        Ok(())
    }

    pub fn id(&self) -> (r: &'static str)
        ensures
            r@ == "steelseries-arctis-7"@,
    {
        "steelseries-arctis-7"
    }

    pub fn name(&self) -> (r: &'static str)
        ensures
            r@ == arctis7_model_name(self@.0),
    {
        match self.model {
            Arctis7Model::Arctis7_2017 => "Arctis 7 (2017)",
            Arctis7Model::Arctis7_2019 => "Arctis 7 (2019)",
            Arctis7Model::ProWireless => "Arctis Pro Wireless",
            Arctis7Model::Arctis7P => "Arctis 7P",
            Arctis7Model::Arctis7PPlus => "Arctis 7P+",
            Arctis7Model::Arctis7Plus => "Arctis 7+",
            Arctis7Model::Arctis7 => "Arctis 7",
        }
    }

    pub fn icon(&self) -> (r: DeviceIcon)
        ensures
            r == DeviceIcon::Headset,
    {
        DeviceIcon::Headset
    }

    pub fn battery_percent(&self) -> (r: Option<u8>)
        ensures
            r == self@.1.battery_percent,
            r matches Some(p) ==> p <= 100,
    {
        self.battery.battery_percent()
    }

    pub fn charging_state(&self) -> (r: ChargingState)
        ensures
            r == self@.1.charging_state,
    {
        self.battery.charging_state()
    }

    pub fn is_connected(&self) -> (r: bool)
        ensures
            r == self@.1.connected,
    {
        self.battery.is_connected()
    }
}

/// A Nova status reply from a headset that is online, with a level of at
/// most 100 in byte 3, is a reading of that level; the headset is charging
/// exactly when byte 4 is 0x01, and otherwise full at 100 and on battery
/// below.
pub proof fn lemma_nova_charging_flag(b: BatteryView, response: Seq<u8>, bytes_read: usize)
    requires
        response.len() == 128,
        bytes_read > 0,
        response[1] != 0x02,
        response[3] <= 100,
    ensures
        ({
            let (after, outcome) = nova_reply(b, response, bytes_read);
            &&& outcome == Ok::<(), (ErrorKind, Seq<char>)>(())
            &&& after.connected
            &&& after.battery_percent == Some(response[3])
            &&& response[4] == 1 <==> after.charging_state == ChargingState::Charging
            &&& (response[4] != 1 && response[3] == 100) <==> after.charging_state
                == ChargingState::Full
            &&& (response[4] != 1 && response[3] < 100) <==> after.charging_state
                == ChargingState::Discharging
        }),
{
}

/// A Nova reply whose byte 1 is 0x02 (headset away) keeps the last
/// percentage, shows the headset disconnected with an unknown charging
/// state, and succeeds; an empty read leaves the reading disconnected and
/// fails.
pub proof fn lemma_nova_offline(b: BatteryView, response: Seq<u8>, bytes_read: usize)
    requires
        response.len() == 128,
    ensures
        bytes_read > 0 && response[1] == 0x02 ==> nova_reply(b, response, bytes_read) == (
            BatteryView {
                battery_percent: b.battery_percent,
                charging_state: ChargingState::Unknown,
                connected: false,
            },
            Ok::<(), (ErrorKind, Seq<char>)>(()),
        ),
        bytes_read == 0 ==> nova_reply(b, response, bytes_read).0 == (BatteryView {
            connected: false,
            ..b
        }) && nova_reply(b, response, bytes_read).1 is Err,
{
}

/// An Arctis 7 reply never shows the headset charging: a level of at most
/// 100 in byte 2 is a reading, full at 100 and on battery below; a larger
/// value means the headset is away from its base station.
pub proof fn lemma_arctis7_level(b: BatteryView, response: Seq<u8>, bytes_read: usize)
    requires
        response.len() == 8,
        bytes_read > 0,
    ensures
        ({
            let (after, outcome) = arctis7_reply(b, response, bytes_read);
            &&& outcome == Ok::<(), (ErrorKind, Seq<char>)>(())
            &&& after.charging_state != ChargingState::Charging || after == (BatteryView {
                connected: false,
                ..b
            })
            &&& response[2] <= 100 ==> after.connected && after.battery_percent == Some(
                response[2],
            ) && (after.charging_state == ChargingState::Full <==> response[2] == 100) && (
            after.charging_state == ChargingState::Discharging <==> response[2] < 100)
            &&& response[2] > 100 ==> after == (BatteryView { connected: false, ..b })
        }),
{
}

} // verus!
