use deskvolt::device::{ChargingState, DeviceIcon, DeviceStatus};
use deskvolt::tray::{
    battery_icon_rgba, build_tooltip, initial_poll_checks, initial_tray_state, menu_action,
    min_connected_battery, poll_interval_checks, tooltip_text, MenuAction,
};
use deskvolt::session::{loop_step, LoopEvent, LoopStep, WM_HOTKEY, WM_QUIT};
use deskvolt::worker::{worker_action, WorkerAction, WorkerPoint};

fn dev(name: &str, percent: Option<u8>, charging: ChargingState, connected: bool) -> DeviceStatus {
    DeviceStatus {
        id: name.to_lowercase(),
        name: name.to_string(),
        icon: DeviceIcon::Headset,
        battery_percent: percent,
        charging_state: charging,
        is_connected: connected,
    }
}

#[test]
fn tooltip_lines() {
    assert_eq!(build_tooltip(&[]), "DeskVolt - No devices");
    let devices = vec![
        dev("Mouse", Some(80), ChargingState::Charging, true),
        dev("Pad", Some(5), ChargingState::Discharging, true),
        dev("Head", Some(50), ChargingState::Charging, false),
        dev("Other", None, ChargingState::Unknown, true),
    ];
    assert_eq!(
        build_tooltip(&devices),
        "DeskVolt\nMouse: 80% (charging)\nPad: 5%\nHead: Disconnected\nOther: Unknown"
    );
}

#[test]
fn tooltip_cut_to_127_bytes() {
    let devices: Vec<DeviceStatus> = (0..20)
        .map(|_| dev("Wireless Headset", Some(100), ChargingState::Full, true))
        .collect();
    let full = tooltip_text(&devices);
    assert!(full.len() > 127);
    let cut = build_tooltip(&devices);
    assert_eq!(cut.len(), 127);
    assert_eq!(cut, full[..127]);
}

#[test]
fn icon_colors_and_fill() {
    let px = |rgba: &Vec<u8>, x: usize, y: usize| -> [u8; 4] {
        let i = (y * 32 + x) * 4;
        [rgba[i], rgba[i + 1], rgba[i + 2], rgba[i + 3]]
    };
    let red = battery_icon_rgba(Some(10));
    assert_eq!(red.len(), 32 * 32 * 4);
    assert_eq!(px(&red, 5, 10), [220, 80, 80, 255]);
    assert_eq!(px(&red, 8, 10), [40, 40, 40, 255]);
    assert_eq!(px(&red, 4, 10), [200, 200, 200, 255]);
    assert_eq!(px(&red, 0, 0), [0, 0, 0, 0]);
    let yellow = battery_icon_rgba(Some(50));
    assert_eq!(px(&yellow, 5, 10), [220, 180, 60, 255]);
    assert_eq!(px(&yellow, 15, 10), [220, 180, 60, 255]);
    assert_eq!(px(&yellow, 16, 10), [40, 40, 40, 255]);
    let yellow_low = battery_icon_rgba(Some(20));
    assert_eq!(px(&yellow_low, 5, 10), [220, 180, 60, 255]);
    let green = battery_icon_rgba(Some(51));
    assert_eq!(px(&green, 5, 10), [80, 200, 80, 255]);
    let full = battery_icon_rgba(Some(100));
    assert_eq!(px(&full, 26, 10), [80, 200, 80, 255]);
    assert_eq!(px(&full, 27, 11), [200, 200, 200, 255]);
    assert_eq!(px(&full, 27, 12), [40, 40, 40, 255]);
    assert_eq!(px(&full, 27, 15), [40, 40, 40, 255]);
    assert_eq!(px(&full, 28, 15), [200, 200, 200, 255]);
    let unknown = battery_icon_rgba(None);
    assert_eq!(px(&unknown, 15, 10), [150, 150, 150, 255]);
    assert_eq!(px(&unknown, 16, 10), [40, 40, 40, 255]);
    let empty = battery_icon_rgba(Some(0));
    assert_eq!(px(&empty, 5, 10), [40, 40, 40, 255]);
}

#[test]
fn menu_items() {
    assert_eq!(menu_action("exit"), MenuAction::Exit);
    assert_eq!(menu_action("hide"), MenuAction::Hide);
    assert_eq!(menu_action("poll_2"), MenuAction::SetPollInterval(2));
    assert_eq!(menu_action("poll_5"), MenuAction::SetPollInterval(5));
    assert_eq!(menu_action("poll_10"), MenuAction::SetPollInterval(10));
    assert_eq!(menu_action("poll_30"), MenuAction::SetPollInterval(30));
    assert_eq!(menu_action("poll_3"), MenuAction::Nothing);
    assert_eq!(menu_action("Exit"), MenuAction::Nothing);
}

#[test]
fn poll_check_marks() {
    assert_eq!(initial_poll_checks(2), [true, false, false, false]);
    assert_eq!(initial_poll_checks(30), [false, false, false, true]);
    assert_eq!(initial_poll_checks(7), [false, false, false, true]);
    assert_eq!(poll_interval_checks(7), [false, false, false, false]);
    assert_eq!(poll_interval_checks(10), [false, false, true, false]);
}

#[test]
fn lowest_connected_level() {
    let devices = vec![
        dev("A", Some(80), ChargingState::Charging, true),
        dev("B", Some(5), ChargingState::Discharging, false),
        dev("C", None, ChargingState::Unknown, true),
        dev("D", Some(40), ChargingState::Discharging, true),
    ];
    assert_eq!(min_connected_battery(&devices), Some(40));
    assert_eq!(min_connected_battery(&devices[1..3]), None);
    assert_eq!(min_connected_battery(&[]), None);
}

#[test]
fn tray_starts_from_saved_settings() {
    let shown = initial_tray_state(5, false);
    assert!(shown.visible);
    assert_eq!(shown.tooltip, "DeskVolt - Loading...");
    assert_eq!(shown.poll_checks, [false, true, false, false]);
    let hidden = initial_tray_state(7, true);
    assert!(!hidden.visible);
    assert_eq!(hidden.tooltip, "DeskVolt - Loading...");
    assert_eq!(hidden.poll_checks, [false, false, false, true]);
}

#[test]
fn main_loop_steps() {
    assert!(matches!(loop_step(LoopEvent::Message(WM_QUIT, 0)), LoopStep::Exit));
    assert!(matches!(loop_step(LoopEvent::Message(WM_HOTKEY, 1)), LoopStep::Exit));
    assert!(matches!(loop_step(LoopEvent::Message(WM_HOTKEY, 2)), LoopStep::Dispatch));
    assert!(matches!(loop_step(LoopEvent::Message(0x000F, 1)), LoopStep::Dispatch));
    assert!(matches!(loop_step(LoopEvent::Menu(MenuAction::Exit)), LoopStep::Exit));
    assert!(matches!(loop_step(LoopEvent::Menu(MenuAction::Hide)), LoopStep::Apply(MenuAction::Hide)));
    assert!(matches!(
        loop_step(LoopEvent::Menu(MenuAction::SetPollInterval(10))),
        LoopStep::Apply(MenuAction::SetPollInterval(10))
    ));
    let statuses = vec![dev("Mouse", Some(42), ChargingState::Charging, true)];
    match loop_step(LoopEvent::Statuses(statuses)) {
        LoopStep::Show(shown) => {
            assert_eq!(shown.len(), 1);
            assert_eq!(shown[0].name, "Mouse");
            assert_eq!(shown[0].battery_percent, Some(42));
        }
        _ => panic!("statuses not shown"),
    }
}

#[test]
fn poller_decisions() {
    assert_eq!(worker_action(WorkerPoint::Start, false), WorkerAction::Discover);
    assert_eq!(worker_action(WorkerPoint::Discovered, true), WorkerAction::PollAndSend);
    assert_eq!(
        worker_action(WorkerPoint::Sent { first: true, delivered: false }, false),
        WorkerAction::Sleep
    );
    assert_eq!(
        worker_action(WorkerPoint::Sent { first: false, delivered: true }, false),
        WorkerAction::Sleep
    );
    assert_eq!(
        worker_action(WorkerPoint::Sent { first: false, delivered: false }, false),
        WorkerAction::Stop
    );
    assert_eq!(worker_action(WorkerPoint::Woke, true), WorkerAction::Discover);
    assert_eq!(worker_action(WorkerPoint::Woke, false), WorkerAction::PollAndSend);
}
