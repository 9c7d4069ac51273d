//! The battery reading every device keeps.

use vstd::prelude::*;

use crate::device::ChargingState;

verus! {

/// What a device reports of its battery.
#[derive(Debug, Clone, Copy, PartialEq, Eq, Structural)]
pub struct BatteryView {
    pub battery_percent: Option<u8>,
    pub charging_state: ChargingState,
    pub connected: bool,
}

/// A battery reading; a percentage is never above 100.
#[derive(Debug, Clone, Copy)]
pub struct Battery {
    battery_percent: Option<u8>,
    charging_state: ChargingState,
    connected: bool,
}

impl View for Battery {
    type V = BatteryView;

    closed spec fn view(&self) -> BatteryView {
        BatteryView {
            battery_percent: self.battery_percent,
            charging_state: self.charging_state,
            connected: self.connected,
        }
    }
}

/// The reading of a device just opened: nothing known yet, taken as connected.
pub open spec fn initial_battery() -> BatteryView {
    BatteryView { battery_percent: None, charging_state: ChargingState::Unknown, connected: true }
}

/// A fresh reading of `percent`.
pub open spec fn reading(percent: u8, charging_state: ChargingState) -> BatteryView {
    BatteryView { battery_percent: Some(percent), charging_state, connected: true }
}

/// The same reading, marked disconnected.
pub open spec fn disconnected(v: BatteryView) -> BatteryView {
    BatteryView { connected: false, ..v }
}

/// The last known percentage, marked disconnected with an unknown
/// charging state.
pub open spec fn offline(v: BatteryView) -> BatteryView {
    BatteryView { connected: false, charging_state: ChargingState::Unknown, ..v }
}

/// The charging state a device that only reports whether it charges shows:
/// charging wins, then a full battery, else discharging.
pub open spec fn charge_from(charging: bool, percent: u8) -> ChargingState {
    if charging {
        ChargingState::Charging
    } else if percent >= 100 {
        ChargingState::Full
    } else {
        ChargingState::Discharging
    }
}

pub fn charge_state_from(charging: bool, percent: u8) -> (r: ChargingState)
    ensures
        r == charge_from(charging, percent),
{
    if charging {
        ChargingState::Charging
    } else if percent >= 100 {
        ChargingState::Full
    } else {
        ChargingState::Discharging
    }
}

impl Battery {
    #[verifier::type_invariant]
    spec fn percent_in_range(self) -> bool {
        self.battery_percent matches Some(p) ==> p <= 100
    }

    pub fn new() -> (r: Battery)
        ensures
            r@ == initial_battery(),
    {
        Battery { battery_percent: None, charging_state: ChargingState::Unknown, connected: true }
    }

    pub fn battery_percent(&self) -> (r: Option<u8>)
        ensures
            r == self@.battery_percent,
            r matches Some(p) ==> p <= 100,
    {
        proof {
            use_type_invariant(self);
        }
        self.battery_percent
    }

    pub fn charging_state(&self) -> (r: ChargingState)
        ensures
            r == self@.charging_state,
    {
        self.charging_state
    }

    pub fn is_connected(&self) -> (r: bool)
        ensures
            r == self@.connected,
    {
        self.connected
    }

    pub fn set_reading(&mut self, percent: u8, charging_state: ChargingState)
        requires
            percent <= 100,
        ensures
            final(self)@ == reading(percent, charging_state),
    {
        self.battery_percent = Some(percent);
        self.charging_state = charging_state;
        self.connected = true;
    }

    pub fn set_disconnected(&mut self)
        ensures
            final(self)@ == disconnected(old(self)@),
    {
        proof {
            use_type_invariant(&*self);
        }
        self.connected = false;
    }

    pub fn set_offline(&mut self)
        ensures
            final(self)@ == offline(old(self)@),
    {
        proof {
            use_type_invariant(&*self);
        }
        self.connected = false;
        self.charging_state = ChargingState::Unknown;
    }
}

} // verus!
