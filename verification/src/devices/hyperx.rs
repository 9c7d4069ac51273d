//! HyperX Cloud Alpha Wireless headset.
//!
//! Two 64-byte exchanges per poll: `21 BB 0C` asks whether the headset
//! charges, `21 BB 0B` for the level; both answers sit in byte 3.

use vstd::prelude::*;

use crate::device::{
    comm_failure, communication_error, protocol_error, protocol_failure, result_view, ChargingState,
    DeviceError, DeviceIcon, ErrorKind,
};
use crate::devices::battery::{
    charge_from, charge_state_from, disconnected, initial_battery, reading, Battery, BatteryView,
};
use crate::hid::{find_matching, matching, padded, HidFilter, HidInfo, Port};

verus! {

/// HP's vendor id, which HyperX products carry.
pub const HYPERX_VID: u16 = 0x03F0;

pub const CLOUD_ALPHA_PID: u16 = 0x098D;

pub const MSG_SIZE: usize = 64;

/// A HyperX Cloud Alpha Wireless headset.
#[derive(Debug, Clone, Copy)]
pub struct HyperXCloudAlpha {
    battery: Battery,
}

impl View for HyperXCloudAlpha {
    type V = BatteryView;

    closed spec fn view(&self) -> BatteryView {
        self.battery@
    }
}

pub open spec fn cloud_alpha_filter() -> HidFilter {
    HidFilter { vendor_id: HYPERX_VID, product_id: CLOUD_ALPHA_PID, port: Port::Any }
}

/// What the reply to the charging query does, and the charging flag it
/// yields.
pub open spec fn hyperx_charging_reply(b: BatteryView, response: Seq<u8>, bytes_read: usize) -> (
    BatteryView,
    Result<bool, (ErrorKind, Seq<char>)>,
) {
    if bytes_read == 0 {
        (disconnected(b), Err((ErrorKind::CommunicationError, "No response"@)))
    } else {
        (b, Ok(response[3] == 0x01))
    }
}

/// What the reply to the level query does, given the charging flag.
pub open spec fn hyperx_battery_reply(
    b: BatteryView,
    charging: bool,
    response: Seq<u8>,
    bytes_read: usize,
) -> (BatteryView, Result<(), (ErrorKind, Seq<char>)>) {
    let level = response[3];
    if bytes_read == 0 {
        (disconnected(b), comm_failure("No response"@))
    } else if level > 100 {
        (b, protocol_failure("Invalid battery value"@))
    } else {
        (reading(level, charge_from(charging, level)), Ok(()))
    }
}

impl HyperXCloudAlpha {
    pub fn new() -> (r: HyperXCloudAlpha)
        ensures
            r@ == initial_battery(),
    {
        HyperXCloudAlpha { battery: Battery::new() }
    }

    /// The enumerated interfaces to open and query, in the order to try them.
    pub fn discover(infos: &[HidInfo]) -> (r: Vec<usize>)
        ensures
            r@ == matching(infos@, cloud_alpha_filter()),
    {
        find_matching(
            infos,
            &HidFilter { vendor_id: HYPERX_VID, product_id: CLOUD_ALPHA_PID, port: Port::Any },
        )
    }

    /// The query that asks whether the headset charges.
    pub fn charging_request() -> (r: [u8; 64])
        ensures
            r@ == padded(seq![0x21u8, 0xBBu8, 0x0Cu8], 64),
    {
        let mut r = [0u8; 64];
        r[0] = 0x21;
        r[1] = 0xBB;
        r[2] = 0x0C;
        assert(r@ =~= padded(seq![0x21u8, 0xBBu8, 0x0Cu8], 64));
        r
    }

    /// The query for the battery level.
    pub fn battery_request() -> (r: [u8; 64])
        ensures
            r@ == padded(seq![0x21u8, 0xBBu8, 0x0Bu8], 64),
    {
        let mut r = [0u8; 64];
        r[0] = 0x21;
        r[1] = 0xBB;
        r[2] = 0x0B;
        assert(r@ =~= padded(seq![0x21u8, 0xBBu8, 0x0Bu8], 64));
        r
    }

    /// Take in the reply to the charging query; gives whether it charges.
    pub fn handle_charging_response(&mut self, response: &[u8; 64], bytes_read: usize) -> (r:
        Result<bool, DeviceError>)
        ensures
            (final(self)@, match r {
                Ok(c) => Ok(c),
                Err(e) => Err(e@),
            }) == hyperx_charging_reply(old(self)@, response@, bytes_read),
    {
        if bytes_read == 0 {
            self.battery.set_disconnected();
            return Err(communication_error("No response"));
        }
        Ok(response[3] == 0x01)
    }

    /// Take in the reply to the level query (the same buffer as the
    /// charging reply, refilled).
    pub fn handle_battery_response(
        &mut self,
        charging: bool,
        response: &[u8; 64],
        bytes_read: usize,
    ) -> (r: Result<(), DeviceError>)
        ensures
            (final(self)@, result_view(r)) == hyperx_battery_reply(
                old(self)@,
                charging,
                response@,
                bytes_read,
            ),
    {
        if bytes_read == 0 {
            self.battery.set_disconnected();
            return Err(communication_error("No response"));
        }
        let level = response[3];
        if level > 100 {
            return Err(protocol_error("Invalid battery value"));
        }
        self.battery.set_reading(level, charge_state_from(charging, level));
        Ok(())
    }

    pub fn id(&self) -> (r: &'static str)
        ensures
            r@ == "hyperx-cloud-alpha"@,
    {
        "hyperx-cloud-alpha"
    }

    pub fn name(&self) -> (r: &'static str)
        ensures
            r@ == "Cloud Alpha Wireless"@,
    {
        "Cloud Alpha Wireless"
    }

    pub fn icon(&self) -> (r: DeviceIcon)
        ensures
            r == DeviceIcon::Headset,
    {
        DeviceIcon::Headset
    }

    pub fn battery_percent(&self) -> (r: Option<u8>)
        ensures
            r == self@.battery_percent,
            r matches Some(p) ==> p <= 100,
    {
        self.battery.battery_percent()
    }

    pub fn charging_state(&self) -> (r: ChargingState)
        ensures
            r == self@.charging_state,
    {
        self.battery.charging_state()
    }

    pub fn is_connected(&self) -> (r: bool)
        ensures
            r == self@.connected,
    {
        self.battery.is_connected()
    }
}

/// A non-empty reply to the charging query leaves the reading as it was
/// and says the headset charges exactly when byte 3 is 0x01; the level
/// reply that follows then shows it charging exactly in that case, and
/// otherwise full at 100 and on battery below.
pub proof fn lemma_hyperx_charging_flag(
    b: BatteryView,
    charging_reply: Seq<u8>,
    charging_read: usize,
    level_reply: Seq<u8>,
    level_read: usize,
)
    requires
        charging_reply.len() == 64,
        charging_read > 0,
        level_reply.len() == 64,
        level_read > 0,
        level_reply[3] <= 100,
    ensures
        ({
            let (kept, flag) = hyperx_charging_reply(b, charging_reply, charging_read);
            &&& kept == b
            &&& flag == Ok::<bool, (ErrorKind, Seq<char>)>(charging_reply[3] == 1)
        }),
        ({
            let charging = charging_reply[3] == 1;
            let (after, outcome) = hyperx_battery_reply(b, charging, level_reply, level_read);
            &&& outcome == Ok::<(), (ErrorKind, Seq<char>)>(())
            &&& after.battery_percent == Some(level_reply[3])
            &&& charging_reply[3] == 1 <==> after.charging_state == ChargingState::Charging
            &&& (charging_reply[3] != 1 && level_reply[3] == 100) <==> after.charging_state
                == ChargingState::Full
            &&& (charging_reply[3] != 1 && level_reply[3] < 100) <==> after.charging_state
                == ChargingState::Discharging
        }),
{
}

} // verus!
