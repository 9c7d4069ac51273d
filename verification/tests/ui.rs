use deskvolt::config::Position;
use deskvolt::device::{ChargingState, DeviceIcon, DeviceStatus};
use deskvolt::log::log;
use deskvolt::session::{is_exit_message, is_other_instance};
use deskvolt::ui::{
    mouse_point, render_plan, row_layout, row_style, row_top, widget_event, widget_height, widget_origin, DragState,
    WindowAction, COLOR_CHARGING, COLOR_LOW, COLOR_TEXT, COLOR_TEXT_DIM, HTCAPTION, WM_DESTROY,
    WM_ERASEBKGND, WM_LBUTTONDOWN, WM_LBUTTONUP, WM_MOUSEMOVE, WM_NCHITTEST, WM_PAINT,
};

#[test]
fn widget_placement() {
    assert_eq!(widget_origin(Position { x: -1, y: -1 }, 1920, 1080), (1520, 995));
    assert_eq!(widget_origin(Position { x: 100, y: 200 }, 1920, 1080), (100, 200));
    assert_eq!(widget_origin(Position { x: 1540, y: 1015 }, 1920, 1080), (1540, 1015));
    assert_eq!(widget_origin(Position { x: 1541, y: 0 }, 1920, 1080), (1520, 995));
    assert_eq!(widget_origin(Position { x: 0, y: 1016 }, 1920, 1080), (1520, 995));
}

#[test]
fn widget_rows() {
    assert_eq!(widget_height(0), 65);
    assert_eq!(widget_height(1), 65);
    assert_eq!(widget_height(3), 153);
    assert_eq!(row_top(0), 5);
    assert_eq!(row_top(2), 93);
}

#[test]
fn mouse_coordinates() {
    assert_eq!(mouse_point(0x0010_0020), (0x20, 0x10));
    assert_eq!(mouse_point(0xFFFF_FFFE), (-2, -1));
    let lparam: isize = 0x0005_8000;
    assert_eq!(mouse_point(lparam), ((0x8000u16 as i16) as i32, 5));
}

fn dev(percent: Option<u8>, charging: ChargingState, connected: bool) -> DeviceStatus {
    DeviceStatus {
        id: "d".to_string(),
        name: "D".to_string(),
        icon: DeviceIcon::Mouse,
        battery_percent: percent,
        charging_state: charging,
        is_connected: connected,
    }
}

#[test]
fn device_row_styles() {
    let s = row_style(&dev(Some(15), ChargingState::Discharging, true));
    assert_eq!(s.text_color, COLOR_TEXT);
    assert_eq!(s.icon, "\u{E962}");
    assert_eq!(s.percent_text, "15%");
    assert_eq!(s.percent_color, COLOR_LOW);
    assert_eq!(s.status_icon, Some(("\u{E814}", COLOR_LOW)));

    let s = row_style(&dev(Some(15), ChargingState::Charging, true));
    assert_eq!(s.status_icon, Some(("\u{E945}", COLOR_CHARGING)));

    let s = row_style(&dev(None, ChargingState::Unknown, false));
    assert_eq!(s.text_color, COLOR_TEXT_DIM);
    assert_eq!(s.percent_text, "-");
    assert_eq!(s.percent_color, COLOR_TEXT_DIM);
    assert_eq!(s.status_icon, None);

    let s = row_style(&dev(Some(10), ChargingState::Discharging, false));
    assert_eq!(s.percent_color, COLOR_TEXT_DIM);
    assert_eq!(s.status_icon, None);

    let s = row_style(&dev(Some(90), ChargingState::Full, true));
    assert_eq!(s.percent_color, COLOR_TEXT);
    assert_eq!(s.status_icon, None);
}

#[test]
fn log_line_format() {
    assert_eq!(log(1700000000, "DeskVolt started"), "[1700000000] DeskVolt started\n");
    assert_eq!(log(0, ""), "[0] \n");
}

#[test]
fn main_loop_decisions() {
    assert!(is_exit_message(0x0012, 0));
    assert!(is_exit_message(0x0312, 1));
    assert!(!is_exit_message(0x0312, 2));
    assert!(!is_exit_message(0x0201, 1));
    assert!(is_other_instance("DeskVolt.EXE", 10, 11));
    assert!(is_other_instance("deskvolt.exe", 10, 11));
    assert!(!is_other_instance("deskvolt.exe", 11, 11));
    assert!(!is_other_instance("deskvolt2.exe", 10, 11));
    assert!(!is_other_instance("dëskvolt.exe", 10, 11));
}

#[test]
fn dragging_moves_window_with_mouse() {
    let idle = DragState { dragging: false, start_x: 0, start_y: 0 };
    let (pressed, action, reply) = widget_event(idle, WM_LBUTTONDOWN, 0x0014_0030, 0, 0);
    assert_eq!(pressed, DragState { dragging: true, start_x: 0x30, start_y: 0x14 });
    assert_eq!(action, WindowAction::Capture);
    assert_eq!(reply, Some(0));
    let (same, action, reply) = widget_event(pressed, WM_MOUSEMOVE, 0x001E_0040, 1500, 990);
    assert_eq!(same, pressed);
    assert_eq!(action, WindowAction::MoveTo(1516, 1000));
    assert_eq!(reply, Some(0));
    let (same, action, _) = widget_event(pressed, WM_MOUSEMOVE, 0xFFFF_FFFF, 100, 100);
    assert_eq!(same, pressed);
    assert_eq!(action, WindowAction::MoveTo(100 - 1 - 0x30, 100 - 1 - 0x14));
    let (released, action, reply) = widget_event(pressed, WM_LBUTTONUP, 0, 0, 0);
    assert_eq!(released, DragState { dragging: false, start_x: 0x30, start_y: 0x14 });
    assert_eq!(action, WindowAction::Release);
    assert_eq!(reply, Some(0));
    let (after, action, reply) = widget_event(released, WM_MOUSEMOVE, 0x001E_0040, 1500, 990);
    assert_eq!(after, released);
    assert_eq!(action, WindowAction::Nothing);
    assert_eq!(reply, Some(0));
}

#[test]
fn window_messages_answers() {
    let s = DragState { dragging: true, start_x: 3, start_y: 4 };
    assert_eq!(widget_event(s, WM_NCHITTEST, 0, 0, 0), (s, WindowAction::Nothing, Some(HTCAPTION)));
    assert_eq!(HTCAPTION, 2);
    assert_eq!(widget_event(s, WM_ERASEBKGND, 0, 0, 0), (s, WindowAction::Nothing, Some(1)));
    assert_eq!(widget_event(s, WM_PAINT, 0, 0, 0), (s, WindowAction::Paint, Some(0)));
    assert_eq!(widget_event(s, WM_DESTROY, 0, 0, 0), (s, WindowAction::Quit, Some(0)));
    assert_eq!(widget_event(s, 0x0010, 0, 0, 0), (s, WindowAction::Nothing, None));
}

#[test]
fn row_positions() {
    let l = row_layout(380, 49);
    assert_eq!(l.text_y, 60);
    assert_eq!(l.icon_y, 65);
    assert_eq!(l.icon_x, 16);
    assert_eq!(l.name_x, 54);
    assert_eq!(l.right_edge, 364);
    assert_eq!(l.status_x, 282);
    assert_eq!(l.percent_x(30), 334);
}

#[test]
fn render_plans() {
    let empty = render_plan(380, 65, 0);
    assert_eq!(empty.background, 0x002D2D2D);
    let notice = empty.notice.unwrap();
    assert_eq!(notice.text, "No devices found");
    assert_eq!(notice.color, COLOR_TEXT_DIM);
    assert_eq!((notice.left, notice.top, notice.right, notice.bottom), (16, 5, 364, 49));
    assert!(empty.row_tops.is_empty());
    let three = render_plan(380, 153, 3);
    assert_eq!(three.background, 0x002D2D2D);
    assert!(three.notice.is_none());
    assert_eq!(three.row_tops, vec![5, 49, 93]);
}
