//! The device abstraction: what a battery-reporting peripheral tells the
//! widget, and the registry of the devices found.

use vstd::prelude::*;

verus! {

/// Icon type for device identification in the UI.
#[derive(Debug, Clone, Copy, PartialEq, Eq, Structural)]
pub enum DeviceIcon {
    Mouse,
    Headset,
    Keyboard,
    Controller,
    Generic,
}

/// Charging state of a device.
#[derive(Debug, Clone, Copy, PartialEq, Eq, Structural)]
pub enum ChargingState {
    Discharging,
    Charging,
    Full,
    Unknown,
}

/// Snapshot of a device's current status for UI rendering.
#[derive(Debug, Clone)]
pub struct DeviceStatus {
    pub id: String,
    pub name: String,
    pub icon: DeviceIcon,
    pub battery_percent: Option<u8>,
    pub charging_state: ChargingState,
    pub is_connected: bool,
}

/// A reading below 20 percent counts as a low battery.
pub open spec fn low_battery(battery_percent: Option<u8>) -> bool {
    match battery_percent {
        Some(p) => p < 20,
        None => false,
    }
}

impl DeviceStatus {
    pub fn is_low_battery(&self) -> (r: bool)
        ensures
            r == low_battery(self.battery_percent),
    {
        match self.battery_percent {
            Some(p) => p < 20,
            None => false,
        }
    }
}

/// Error type for device operations.
#[derive(Debug)]
pub enum DeviceError {
    NotFound,
    ConnectionFailed(String),
    CommunicationError(String),
    ProtocolError(String),
}

/// The kind of a [`DeviceError`], without its message.
#[derive(Debug, Clone, Copy, PartialEq, Eq, Structural)]
pub enum ErrorKind {
    NotFound,
    ConnectionFailed,
    CommunicationError,
    ProtocolError,
}

impl View for DeviceError {
    type V = (ErrorKind, Seq<char>);

    open spec fn view(&self) -> (ErrorKind, Seq<char>) {
        match self {
            DeviceError::NotFound => (ErrorKind::NotFound, Seq::empty()),
            DeviceError::ConnectionFailed(m) => (ErrorKind::ConnectionFailed, m@),
            DeviceError::CommunicationError(m) => (ErrorKind::CommunicationError, m@),
            DeviceError::ProtocolError(m) => (ErrorKind::ProtocolError, m@),
        }
    }
}

/// The outcome of a device operation, errors taken by their view.
pub open spec fn result_view(r: Result<(), DeviceError>) -> Result<(), (ErrorKind, Seq<char>)> {
    match r {
        Ok(()) => Ok(()),
        Err(e) => Err(e@),
    }
}

/// A communication failure with this message.
pub open spec fn comm_failure(msg: Seq<char>) -> Result<(), (ErrorKind, Seq<char>)> {
    Err((ErrorKind::CommunicationError, msg))
}

/// A protocol violation with this message.
pub open spec fn protocol_failure(msg: Seq<char>) -> Result<(), (ErrorKind, Seq<char>)> {
    Err((ErrorKind::ProtocolError, msg))
}

/// What one report of a multi-report exchange gives: wait for the next
/// report, or the outcome of the whole exchange.
#[derive(Debug)]
pub enum ReportStep {
    Pending,
    Done(Result<(), DeviceError>),
}

pub open spec fn step_view(s: ReportStep) -> Option<Result<(), (ErrorKind, Seq<char>)>> {
    match s {
        ReportStep::Pending => None,
        ReportStep::Done(r) => Some(result_view(r)),
    }
}

/// A communication failure carrying `msg`.
pub fn communication_error(msg: &str) -> (r: DeviceError)
    ensures
        r@ == (ErrorKind::CommunicationError, msg@),
{
    DeviceError::CommunicationError(msg.to_owned())
}

/// A protocol violation carrying `msg`.
pub fn protocol_error(msg: &str) -> (r: DeviceError)
    ensures
        r@ == (ErrorKind::ProtocolError, msg@),
{
    DeviceError::ProtocolError(msg.to_owned())
}

/// The text that describes an error.
pub open spec fn error_message(e: DeviceError) -> Seq<char> {
    match e {
        DeviceError::NotFound => "Device not found"@,
        DeviceError::ConnectionFailed(m) => "Connection failed: "@ + m@,
        DeviceError::CommunicationError(m) => "Communication error: "@ + m@,
        DeviceError::ProtocolError(m) => "Protocol error: "@ + m@,
    }
}

impl DeviceError {
    /// The text that describes this error.
    pub fn message(&self) -> (r: String)
        ensures
            r@ == error_message(*self),
    {
        match self {
            DeviceError::NotFound => "Device not found".to_owned(),
            DeviceError::ConnectionFailed(m) => {
                let mut r = "Connection failed: ".to_owned();
                r.append(m.as_str());
                r
            },
            DeviceError::CommunicationError(m) => {
                let mut r = "Communication error: ".to_owned();
                r.append(m.as_str());
                r
            },
            DeviceError::ProtocolError(m) => {
                let mut r = "Protocol error: ".to_owned();
                r.append(m.as_str());
                r
            },
        }
    }
}

/// Trait for battery-reporting devices.
///
/// Implementations handle HID communication with a specific device
/// protocol; the spec functions are what a device reports right now.
pub trait Device: Send {
    /// Unique identifier for this device instance.
    fn id(&self) -> &str;

    /// Human-readable display name.
    fn name(&self) -> &str;

    /// Icon type for UI rendering.
    fn icon(&self) -> DeviceIcon;

    /// Current battery percentage (0-100), or None if unavailable.
    fn battery_percent(&self) -> (r: Option<u8>)
        ensures
            r matches Some(p) ==> p <= 100,
    ;

    /// Current charging state.
    fn charging_state(&self) -> ChargingState;

    /// Whether the device is currently connected.
    fn is_connected(&self) -> bool;

    /// Poll the device to refresh battery status.
    ///
    /// This may involve HID communication and should be called from a
    /// background thread.
    fn poll(&mut self) -> Result<(), DeviceError>;

    /// Get a snapshot of the current device status.
    fn status(&self) -> (r: DeviceStatus)
        ensures
            exists|id: &str| call_ensures(Self::id, (self,), id) && id@ == r.id@,
            exists|name: &str| call_ensures(Self::name, (self,), name) && name@ == r.name@,
            call_ensures(Self::icon, (self,), r.icon),
            call_ensures(Self::battery_percent, (self,), r.battery_percent),
            call_ensures(Self::charging_state, (self,), r.charging_state),
            call_ensures(Self::is_connected, (self,), r.is_connected),
            r.battery_percent matches Some(p) ==> p <= 100,
    {
        let id = self.id();
        let name = self.name();
        let battery_percent = self.battery_percent();
        DeviceStatus {
            id: id.to_owned(),
            name: name.to_owned(),
            icon: self.icon(),
            battery_percent,
            charging_state: self.charging_state(),
            is_connected: self.is_connected(),
        }
    }
}

/// `s` is a snapshot of what `d` reports: each field is a value that the
/// matching getter of `d` returns.
pub open spec fn status_of<D: Device>(s: DeviceStatus, d: &D) -> bool {
    &&& exists|id: &str| call_ensures(D::id, (d,), id) && id@ == s.id@
    &&& exists|name: &str| call_ensures(D::name, (d,), name) && name@ == s.name@
    &&& call_ensures(D::icon, (d,), s.icon)
    &&& call_ensures(D::battery_percent, (d,), s.battery_percent)
    &&& call_ensures(D::charging_state, (d,), s.charging_state)
    &&& call_ensures(D::is_connected, (d,), s.is_connected)
    &&& s.battery_percent matches Some(p) ==> p <= 100
}

/// The devices that were found, in order.
pub open spec fn found_devices<D>(found: Seq<Option<D>>) -> Seq<D>
    decreases found.len(),
{
    if found.len() == 0 {
        Seq::empty()
    } else {
        let init = found_devices(found.drop_last());
        match found.last() {
            Some(d) => init.push(d),
            None => init,
        }
    }
}

/// Registry of all known devices.
pub struct DeviceRegistry<D: Device> {
    devices: Vec<D>,
}

impl<D: Device> View for DeviceRegistry<D> {
    type V = Seq<D>;

    closed spec fn view(&self) -> Seq<D> {
        self.devices@
    }
}

impl<D: Device> DeviceRegistry<D> {
    pub fn new() -> (r: Self)
        ensures
            r@ == Seq::<D>::empty(),
    {
        DeviceRegistry { devices: Vec::new() }
    }

    /// Register the devices that discovery found, replacing the earlier
    /// ones.  `found` holds one entry per supported device family, in the
    /// order in which they are searched; `None` where none was found.
    pub fn discover(&mut self, found: Vec<Option<D>>)
        ensures
            final(self)@ == found_devices(found@),
    {
        self.devices.clear();
        let mut found = found;
        let ghost all = found@;
        let mut kept: Vec<D> = Vec::new();
        let n = found.len();
        let mut i: usize = 0;
        while i < n
            invariant
                n == all.len(),
                0 <= i <= n,
                found@ == all.subrange(i as int, n as int),
                kept@ == found_devices(all.subrange(0, i as int)),
            decreases n - i,
        {
            let ghost prefix = all.subrange(0, i + 1);
            assert(prefix.drop_last() =~= all.subrange(0, i as int));
            assert(found@[0] == all[i as int]);
            let entry = found.remove(0);
            assert(found@ =~= all.subrange(i + 1, n as int));
            match entry {
                Some(d) => kept.push(d),
                None => {},
            }
            i = i + 1;
        }
        assert(all.subrange(0, n as int) =~= all);
        self.devices = kept;
    }

    /// Poll all devices and return their current statuses, one per device
    /// in registration order.  Each device is polled once, also when an
    /// earlier poll failed; a device whose poll fails keeps reporting what
    /// it reports after the failure.
    pub fn poll_all(&mut self) -> (r: Vec<DeviceStatus>)
        ensures
            final(self)@.len() == old(self)@.len(),
            r@.len() == old(self)@.len(),
            forall|i: int|
                0 <= i < r@.len() ==> status_of(#[trigger] r@[i], &final(self)@[i]) && (exists|
                    m: &mut D,
                    res: Result<(), DeviceError>,
                |
                    *m == old(self)@[i] && *final(m) == final(self)@[i] && call_ensures(
                        D::poll,
                        (m,),
                        res,
                    )),
    {
        let ghost start = self.devices@;
        let mut statuses: Vec<DeviceStatus> = Vec::new();
        let n = self.devices.len();
        let mut i: usize = 0;
        while i < n
            invariant
                n == self.devices@.len(),
                0 <= i <= n,
                statuses@.len() == i,
                start.len() == n,
                forall|j: int| i <= j < n ==> #[trigger] self.devices@[j] == start[j],
                forall|j: int|
                    0 <= j < i ==> status_of(#[trigger] statuses@[j], &self.devices@[j]) && (exists|
                        m: &mut D,
                        res: Result<(), DeviceError>,
                    |
                        *m == start[j] && *final(m) == self.devices@[j] && call_ensures(
                            D::poll,
                            (m,),
                            res,
                        )),
            decreases n - i,
        {
            let ghost before = self.devices@;
            let d = &mut self.devices[i];
            let _ = d.poll();
            let s = d.status();
            assert(self.devices@ == before.update(i as int, self.devices@[i as int]));
            statuses.push(s);
            i = i + 1;
        }
        statuses
    }

    /// Drop every registered device; discovery starts from an empty
    /// registry.
    pub fn clear(&mut self)
        ensures
            final(self)@ == Seq::<D>::empty(),
    {
        self.devices.clear();
    }

    /// Whether discovery should run again: no device is registered, so a
    /// device that was plugged in since the last search is picked up.
    pub fn needs_discovery(&self) -> (r: bool)
        ensures
            r == (self@.len() == 0),
    {
        self.devices.len() == 0
    }

    /// Get the number of registered devices.
    pub fn device_count(&self) -> (r: usize)
        ensures
            r == self@.len(),
    {
        self.devices.len()
    }
}

impl<D: Device> Default for DeviceRegistry<D> {
    fn default() -> (r: Self)
        ensures
            r@ == Seq::<D>::empty(),
    {
        Self::new()
    }
}

} // verus!
