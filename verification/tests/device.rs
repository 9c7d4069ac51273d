use deskvolt::device::{
    ChargingState, Device, DeviceError, DeviceIcon, DeviceRegistry, DeviceStatus,
};

fn status(percent: Option<u8>) -> DeviceStatus {
    DeviceStatus {
        id: "x".to_string(),
        name: "X".to_string(),
        icon: DeviceIcon::Generic,
        battery_percent: percent,
        charging_state: ChargingState::Unknown,
        is_connected: true,
    }
}

#[test]
fn low_battery_threshold() {
    assert!(status(Some(0)).is_low_battery());
    assert!(status(Some(19)).is_low_battery());
    assert!(!status(Some(20)).is_low_battery());
    assert!(!status(Some(100)).is_low_battery());
    assert!(!status(None).is_low_battery());
}

#[test]
fn error_messages() {
    assert_eq!(DeviceError::NotFound.message(), "Device not found");
    assert_eq!(DeviceError::ConnectionFailed("busy".into()).message(), "Connection failed: busy");
    assert_eq!(
        DeviceError::CommunicationError("No response".into()).message(),
        "Communication error: No response"
    );
    assert_eq!(DeviceError::ProtocolError("bad".into()).message(), "Protocol error: bad");
}

struct Fake {
    polls: u32,
    fail: bool,
}

impl Device for Fake {
    fn id(&self) -> &str {
        "fake"
    }
    fn name(&self) -> &str {
        "Fake"
    }
    fn icon(&self) -> DeviceIcon {
        DeviceIcon::Keyboard
    }
    fn battery_percent(&self) -> Option<u8> {
        Some((self.polls * 10).min(100) as u8)
    }
    fn charging_state(&self) -> ChargingState {
        ChargingState::Discharging
    }
    fn is_connected(&self) -> bool {
        !self.fail
    }
    fn poll(&mut self) -> Result<(), DeviceError> {
        self.polls += 1;
        if self.fail {
            Err(DeviceError::NotFound)
        } else {
            Ok(())
        }
    }
}

#[test]
fn registry_discovers_and_polls() {
    let mut registry: DeviceRegistry<Fake> = DeviceRegistry::new();
    assert_eq!(registry.device_count(), 0);
    assert!(registry.poll_all().is_empty());
    registry.discover(vec![None, Some(Fake { polls: 0, fail: false }), None, Some(Fake { polls: 4, fail: true })]);
    assert_eq!(registry.device_count(), 2);
    let statuses = registry.poll_all();
    assert_eq!(statuses.len(), 2);
    assert_eq!(statuses[0].battery_percent, Some(10));
    assert!(statuses[0].is_connected);
    assert_eq!(statuses[1].battery_percent, Some(50));
    assert!(!statuses[1].is_connected);
    assert_eq!(statuses[0].id, "fake");
    assert_eq!(statuses[0].name, "Fake");
    assert_eq!(statuses[0].icon, DeviceIcon::Keyboard);
    registry.discover(vec![None]);
    assert_eq!(registry.device_count(), 0);
    let registry: DeviceRegistry<Fake> = DeviceRegistry::default();
    assert_eq!(registry.device_count(), 0);
}

#[test]
fn registry_polls_every_device_each_round() {
    let mut registry: DeviceRegistry<Fake> = DeviceRegistry::new();
    assert!(registry.needs_discovery());
    registry.discover(vec![
        Some(Fake { polls: 0, fail: true }),
        Some(Fake { polls: 2, fail: false }),
    ]);
    assert!(!registry.needs_discovery());
    let first = registry.poll_all();
    let second = registry.poll_all();
    assert_eq!(first[0].battery_percent, Some(10));
    assert_eq!(second[0].battery_percent, Some(20));
    assert_eq!(first[1].battery_percent, Some(30));
    assert_eq!(second[1].battery_percent, Some(40));
    registry.clear();
    assert_eq!(registry.device_count(), 0);
    assert!(registry.needs_discovery());
}
