//! Layout and styling of the widget window: where it opens, how tall it
//! is, and how each device row is drawn.

use vstd::prelude::*;

use crate::config::Position;
use crate::device::{low_battery, ChargingState, DeviceIcon, DeviceStatus};
use crate::text::{dec_nat, fmt_u64};

verus! {

pub const ROW_HEIGHT: i32 = 44;

pub const WINDOW_WIDTH: i32 = 380;

pub const PADDING_TOP: i32 = 5;

pub const PADDING_BOTTOM: i32 = 16;

pub const PADDING_LEFT: i32 = 16;

pub const PADDING_RIGHT: i32 = 16;

/// Height of the window with a single row.
pub const MIN_HEIGHT: i32 = 65;

/// Gap kept to the screen's right and bottom edges by the automatic placement.
pub const SCREEN_MARGIN: i32 = 20;

/// Colours, as Windows COLORREF values (0x00BBGGRR).
pub const COLOR_BG: u32 = 0x002D2D2D;

pub const COLOR_TEXT: u32 = 0x00FFFFFF;

pub const COLOR_TEXT_DIM: u32 = 0x00909090;

pub const COLOR_CHARGING: u32 = 0x0000D4FF;

pub const COLOR_LOW: u32 = 0x005050FF;

/// The saved position is kept only when both coordinates are set and the
/// one-row window fits on the screen.
pub open spec fn keeps_position(p: Position, screen_width: int, screen_height: int) -> bool {
    p.x >= 0 && p.y >= 0 && p.x + WINDOW_WIDTH <= screen_width && p.y + MIN_HEIGHT <= screen_height
}

/// The arithmetic of the placement stays within `i32`.
pub open spec fn origin_in_range(p: Position, screen_width: i32, screen_height: i32) -> bool {
    &&& (p.x >= 0 && p.y >= 0) ==> p.x + WINDOW_WIDTH <= i32::MAX
    &&& (p.x >= 0 && p.y >= 0 && p.x + WINDOW_WIDTH <= screen_width) ==> p.y + MIN_HEIGHT
        <= i32::MAX
    &&& !keeps_position(p, screen_width as int, screen_height as int) ==> screen_width
        - WINDOW_WIDTH - SCREEN_MARGIN >= i32::MIN && screen_height - MIN_HEIGHT - SCREEN_MARGIN
        >= i32::MIN
}

/// Where the widget opens: the saved position when it fits on the screen,
/// else the bottom-right corner, 20 pixels from the right and bottom edges.
pub fn widget_origin(position: Position, screen_width: i32, screen_height: i32) -> (r: (i32, i32))
    requires
        origin_in_range(position, screen_width, screen_height),
    ensures
        keeps_position(position, screen_width as int, screen_height as int) ==> r.0 == position.x
            && r.1 == position.y,
        !keeps_position(position, screen_width as int, screen_height as int) ==> r.0
            == screen_width - WINDOW_WIDTH - SCREEN_MARGIN && r.1 == screen_height - MIN_HEIGHT
            - SCREEN_MARGIN,
{
    if position.x < 0 || position.y < 0 || position.x + WINDOW_WIDTH > screen_width || position.y
        + MIN_HEIGHT > screen_height {
        (screen_width - WINDOW_WIDTH - SCREEN_MARGIN, screen_height - MIN_HEIGHT - SCREEN_MARGIN)
    } else {
        (position.x, position.y)
    }
}

/// Height of the window for this many devices: one row each, at least one.
pub fn widget_height(device_count: usize) -> (r: i32)
    requires
        device_count * ROW_HEIGHT + PADDING_TOP + PADDING_BOTTOM <= i32::MAX,
    ensures
        r == PADDING_TOP + (if device_count == 0 {
            1
        } else {
            device_count as int
        }) * ROW_HEIGHT + PADDING_BOTTOM,
{
    let rows: i32 = if device_count == 0 {
        1
    } else {
        device_count as i32
    };
    PADDING_TOP + rows * ROW_HEIGHT + PADDING_BOTTOM
}

/// Top edge of row `index`.
pub fn row_top(index: usize) -> (r: i32)
    requires
        index * ROW_HEIGHT + PADDING_TOP <= i32::MAX,
    ensures
        r == PADDING_TOP + index * ROW_HEIGHT,
{
    PADDING_TOP + (index as i32) * ROW_HEIGHT
}

/// A 16-bit word read as a signed number.
pub open spec fn signed_word(w: int) -> int {
    if w >= 0x8000 {
        w - 0x10000
    } else {
        w
    }
}

/// The client coordinates packed in a mouse message's `lParam`: x in the low
/// word, y in the next, both signed.
pub open spec fn point_of(lparam: isize) -> (int, int) {
    (signed_word((lparam & 0xFFFF) as int), signed_word(((lparam >> 16) & 0xFFFF) as int))
}

/// The client coordinates packed in a mouse message's `lParam`.
pub fn mouse_point(lparam: isize) -> (r: (i32, i32))
    ensures
        r.0 == point_of(lparam).0,
        r.1 == point_of(lparam).1,
{
    let lo = lparam & 0xFFFF;
    let hi = (lparam >> 16) & 0xFFFF;
    assert(0 <= lparam & 0xFFFF <= 0xFFFF) by (bit_vector);
    assert(0 <= (lparam >> 16) & 0xFFFF <= 0xFFFF) by (bit_vector);
    let x: i32 = if lo >= 0x8000 {
        (lo - 0x10000) as i32
    } else {
        lo as i32
    };
    let y: i32 = if hi >= 0x8000 {
        (hi - 0x10000) as i32
    } else {
        hi as i32
    };
    (x, y)
}

/// Window messages the widget answers itself.
pub const WM_DESTROY: u32 = 0x0002;

pub const WM_PAINT: u32 = 0x000F;

pub const WM_ERASEBKGND: u32 = 0x0014;

pub const WM_NCHITTEST: u32 = 0x0084;

pub const WM_MOUSEMOVE: u32 = 0x0200;

pub const WM_LBUTTONDOWN: u32 = 0x0201;

pub const WM_LBUTTONUP: u32 = 0x0202;

/// Hit-test answer that lets the whole window act as its title bar.
pub const HTCAPTION: isize = 2;

/// Whether the widget is being dragged, and where in the window the drag
/// started.
#[derive(Debug, Clone, Copy, PartialEq, Eq, Structural)]
pub struct DragState {
    pub dragging: bool,
    pub start_x: i32,
    pub start_y: i32,
}

/// What the window procedure does besides answering a message.
#[derive(Debug, Clone, Copy, PartialEq, Eq, Structural)]
pub enum WindowAction {
    Nothing,
    /// Capture the mouse, so the drag goes on outside the window.
    Capture,
    /// Release the mouse capture.
    Release,
    /// Move the window's top-left corner here, in screen coordinates.
    MoveTo(i32, i32),
    /// Draw the window.
    Paint,
    /// End the message loop.
    Quit,
}

/// The messages the widget answers itself; every other one goes to the
/// default window procedure.
pub open spec fn handled_message(msg: u32) -> bool {
    msg == WM_LBUTTONDOWN || msg == WM_LBUTTONUP || msg == WM_MOUSEMOVE || msg == WM_NCHITTEST
        || msg == WM_ERASEBKGND || msg == WM_PAINT || msg == WM_DESTROY
}

/// Where a drag moves the window: its corner `(left, top)` shifted by how
/// far the mouse went from where the drag started.
pub open spec fn drag_target(s: DragState, lparam: isize, left: int, top: int) -> (int, int) {
    (left + point_of(lparam).0 - s.start_x, top + point_of(lparam).1 - s.start_y)
}

/// A drag step stays within screen coordinates that fit in `i32`.
pub open spec fn drag_in_range(s: DragState, msg: u32, lparam: isize, left: int, top: int) -> bool {
    msg == WM_MOUSEMOVE && s.dragging ==> {
        let t = drag_target(s, lparam, left, top);
        i32::MIN <= t.0 <= i32::MAX && i32::MIN <= t.1 <= i32::MAX
    }
}

/// How the widget answers message `msg` in drag state `s`, its window's
/// top-left corner at `(left, top)`: the next drag state, the action to
/// take and the reply (`None`: the default window procedure answers).
pub open spec fn widget_step(s: DragState, msg: u32, lparam: isize, left: int, top: int) -> (
    DragState,
    WindowAction,
    Option<isize>,
) {
    if msg == WM_LBUTTONDOWN {
        (
            DragState {
                dragging: true,
                start_x: point_of(lparam).0 as i32,
                start_y: point_of(lparam).1 as i32,
            },
            WindowAction::Capture,
            Some(0),
        )
    } else if msg == WM_LBUTTONUP {
        (DragState { dragging: false, ..s }, WindowAction::Release, Some(0))
    } else if msg == WM_MOUSEMOVE {
        if s.dragging {
            let t = drag_target(s, lparam, left, top);
            (s, WindowAction::MoveTo(t.0 as i32, t.1 as i32), Some(0))
        } else {
            (s, WindowAction::Nothing, Some(0))
        }
    } else if msg == WM_NCHITTEST {
        (s, WindowAction::Nothing, Some(HTCAPTION))
    } else if msg == WM_ERASEBKGND {
        (s, WindowAction::Nothing, Some(1))
    } else if msg == WM_PAINT {
        (s, WindowAction::Paint, Some(0))
    } else if msg == WM_DESTROY {
        (s, WindowAction::Quit, Some(0))
    } else {
        (s, WindowAction::Nothing, None)
    }
}

/// The widget's window procedure, without the Windows calls: the next drag
/// state, what to do and what to answer.
pub fn widget_event(s: DragState, msg: u32, lparam: isize, left: i32, top: i32) -> (r: (
    DragState,
    WindowAction,
    Option<isize>,
))
    requires
        drag_in_range(s, msg, lparam, left as int, top as int),
    ensures
        r == widget_step(s, msg, lparam, left as int, top as int),
        !handled_message(msg) ==> r.2 is None,
{
    if msg == WM_LBUTTONDOWN {
        let (x, y) = mouse_point(lparam);
        (DragState { dragging: true, start_x: x, start_y: y }, WindowAction::Capture, Some(0))
    } else if msg == WM_LBUTTONUP {
        (
            DragState { dragging: false, start_x: s.start_x, start_y: s.start_y },
            WindowAction::Release,
            Some(0),
        )
    } else if msg == WM_MOUSEMOVE {
        if s.dragging {
            let (x, y) = mouse_point(lparam);
            let nx = left as i64 + x as i64 - s.start_x as i64;
            let ny = top as i64 + y as i64 - s.start_y as i64;
            (s, WindowAction::MoveTo(nx as i32, ny as i32), Some(0))
        } else {
            (s, WindowAction::Nothing, Some(0))
        }
    } else if msg == WM_NCHITTEST {
        (s, WindowAction::Nothing, Some(HTCAPTION))
    } else if msg == WM_ERASEBKGND {
        (s, WindowAction::Nothing, Some(1))
    } else if msg == WM_PAINT {
        (s, WindowAction::Paint, Some(0))
    } else if msg == WM_DESTROY {
        (s, WindowAction::Quit, Some(0))
    } else {
        (s, WindowAction::Nothing, None)
    }
}

/// A drag moves the window by exactly how far the mouse went since the
/// button was pressed, whatever the state before the press.
pub proof fn lemma_drag_follows_mouse(
    s: DragState,
    down: isize,
    down_left: int,
    down_top: int,
    moved: isize,
    left: int,
    top: int,
)
    requires
        i32::MIN <= left + point_of(moved).0 - point_of(down).0 <= i32::MAX,
        i32::MIN <= top + point_of(moved).1 - point_of(down).1 <= i32::MAX,
    ensures
        ({
            let pressed = widget_step(s, WM_LBUTTONDOWN, down, down_left, down_top).0;
            &&& pressed.dragging
            &&& widget_step(pressed, WM_MOUSEMOVE, moved, left, top).1 == WindowAction::MoveTo(
                (left + point_of(moved).0 - point_of(down).0) as i32,
                (top + point_of(moved).1 - point_of(down).1) as i32,
            )
        }),
{
    assert(0 <= down & 0xFFFF <= 0xFFFF) by (bit_vector);
    assert(0 <= (down >> 16) & 0xFFFF <= 0xFFFF) by (bit_vector);
}

/// Once the button is released, moving the mouse neither moves the window
/// nor changes the state.
pub proof fn lemma_release_ends_drag(s: DragState, up: isize, moved: isize, left: int, top: int)
    ensures
        ({
            let released = widget_step(s, WM_LBUTTONUP, up, left, top).0;
            &&& !released.dragging
            &&& widget_step(released, WM_MOUSEMOVE, moved, left, top) == (
                released,
                WindowAction::Nothing,
                Some(0isize),
            )
        }),
{
}

/// Only a button press or release changes the drag state.
pub proof fn lemma_state_changes_only_on_button(
    s: DragState,
    msg: u32,
    lparam: isize,
    left: int,
    top: int,
)
    requires
        msg != WM_LBUTTONDOWN,
        msg != WM_LBUTTONUP,
    ensures
        widget_step(s, msg, lparam, left, top).0 == s,
{
}

/// Size of the text and glyph fonts, in pixels.
pub const FONT_HEIGHT: i32 = 22;

/// Width kept for the percentage, and the gap between it and the status
/// glyph.
pub const PERCENT_WIDTH: i32 = 50;

pub const STATUS_GAP: i32 = 8;

/// Width of the status glyph.
pub const STATUS_ICON_WIDTH: i32 = 24;

/// Distance from the device glyph's left edge to the name's.
pub const NAME_OFFSET: i32 = 38;

/// Where the parts of one device row go, in client coordinates.
#[derive(Debug, Clone, Copy, PartialEq, Eq, Structural)]
pub struct RowLayout {
    /// Left edge and top of the device glyph.
    pub icon_x: i32,
    pub icon_y: i32,
    /// Left edge of the device name.
    pub name_x: i32,
    /// Top of the name and of the percentage.
    pub text_y: i32,
    /// The percentage ends here: it is right-aligned to this edge.
    pub right_edge: i32,
    /// Left edge of the status glyph; its top is `icon_y`.
    pub status_x: i32,
}

/// The layout arithmetic of a row stays within `i32`.
pub open spec fn row_layout_in_range(rect_right: int, y: int) -> bool {
    y + 16 <= i32::MAX && rect_right - 98 >= i32::MIN
}

/// Where the parts of the row whose top is `y` go, in a client area whose
/// right edge is `rect_right`: text vertically centred in the row (11
/// pixels down), glyphs 5 pixels lower, the percentage ending 16 pixels
/// from the right edge and the status glyph 82 pixels left of that.
pub fn row_layout(rect_right: i32, y: i32) -> (l: RowLayout)
    requires
        row_layout_in_range(rect_right as int, y as int),
    ensures
        l.text_y == y + 11,
        l.icon_y == y + 16,
        l.icon_x == 16,
        l.name_x == 54,
        l.right_edge == rect_right - 16,
        l.status_x == rect_right - 98,
{
    let text_y = y + (ROW_HEIGHT - FONT_HEIGHT) / 2;
    let icon_y = text_y + 5;
    let right_edge = rect_right - PADDING_RIGHT;
    let status_x = right_edge - PERCENT_WIDTH - STATUS_GAP - STATUS_ICON_WIDTH;
    RowLayout {
        icon_x: PADDING_LEFT,
        icon_y,
        name_x: PADDING_LEFT + NAME_OFFSET,
        text_y,
        right_edge,
        status_x,
    }
}

impl RowLayout {
    /// Left edge of a percentage `text_width` pixels wide, so that it ends
    /// at the right edge.
    pub fn percent_x(&self, text_width: i32) -> (r: i32)
        requires
            i32::MIN <= self.right_edge - text_width <= i32::MAX,
        ensures
            r == self.right_edge - text_width,
    {
        self.right_edge - text_width
    }
}

/// A notice drawn centred on one line inside a rectangle.
#[derive(Debug, Clone, Copy, PartialEq, Eq)]
pub struct Notice {
    pub text: &'static str,
    pub color: u32,
    pub left: i32,
    pub top: i32,
    pub right: i32,
    pub bottom: i32,
}

/// What the widget draws: the background colour, then either a notice
/// that no device was found, or one row per device with these tops.
pub struct RenderPlan {
    pub background: u32,
    pub notice: Option<Notice>,
    pub row_tops: Vec<i32>,
}

/// The plan's arithmetic stays within `i32`.
pub open spec fn render_plan_in_range(rect_right: int, rect_bottom: int, device_count: int) -> bool {
    &&& device_count == 0 ==> rect_right - PADDING_RIGHT >= i32::MIN && rect_bottom
        - PADDING_BOTTOM >= i32::MIN
    &&& device_count > 0 ==> (device_count - 1) * ROW_HEIGHT + PADDING_TOP <= i32::MAX
}

/// What the widget draws in a client area whose right and bottom edges are
/// `rect_right` and `rect_bottom`, for this many devices: the background,
/// and with no device the dimmed text "No devices found" centred inside the
/// area less the paddings; otherwise row `i` at `PADDING_TOP + i *
/// ROW_HEIGHT`, in order.
pub fn render_plan(rect_right: i32, rect_bottom: i32, device_count: usize) -> (p: RenderPlan)
    requires
        render_plan_in_range(rect_right as int, rect_bottom as int, device_count as int),
    ensures
        p.background == COLOR_BG,
        device_count == 0 ==> (p.notice matches Some(n) && n.text@ == "No devices found"@
            && n.color == COLOR_TEXT_DIM && n.left == PADDING_LEFT && n.top == PADDING_TOP
            && n.right == rect_right - PADDING_RIGHT && n.bottom == rect_bottom - PADDING_BOTTOM),
        device_count > 0 ==> p.notice is None,
        p.row_tops@.len() == device_count,
        forall|i: int|
            0 <= i < device_count ==> #[trigger] p.row_tops@[i] == PADDING_TOP + i * ROW_HEIGHT,
{
    if device_count == 0 {
        let notice = Notice {
            text: "No devices found",
            color: COLOR_TEXT_DIM,
            left: PADDING_LEFT,
            top: PADDING_TOP,
            right: rect_right - PADDING_RIGHT,
            bottom: rect_bottom - PADDING_BOTTOM,
        };
        return RenderPlan { background: COLOR_BG, notice: Some(notice), row_tops: Vec::new() };
    }
    let mut row_tops: Vec<i32> = Vec::new();
    let mut i: usize = 0;
    while i < device_count
        invariant
            0 <= i <= device_count,
            (device_count - 1) * ROW_HEIGHT + PADDING_TOP <= i32::MAX,
            row_tops@.len() == i,
            forall|j: int| 0 <= j < i ==> #[trigger] row_tops@[j] == PADDING_TOP + j * ROW_HEIGHT,
        decreases device_count - i,
    {
        assert(i * ROW_HEIGHT <= (device_count - 1) * ROW_HEIGHT) by (nonlinear_arith)
            requires
                i <= device_count - 1,
        ;
        row_tops.push(row_top(i));
        i = i + 1;
    }
    RenderPlan { background: COLOR_BG, notice: None, row_tops }
}

/// The Segoe MDL2 Assets glyph of a device type.
pub open spec fn icon_glyph(icon: DeviceIcon) -> Seq<char> {
    match icon {
        DeviceIcon::Mouse => "\u{E962}"@,
        DeviceIcon::Headset => "\u{E7F6}"@,
        DeviceIcon::Keyboard => "\u{E92E}"@,
        DeviceIcon::Controller => "\u{E7FC}"@,
        DeviceIcon::Generic => "\u{E83F}"@,
    }
}

/// How one device row is drawn.
pub struct RowStyle {
    /// Colour of the device glyph and name: dimmed when disconnected.
    pub text_color: u32,
    pub icon: &'static str,
    /// The percentage with a `%` sign, or `-` when unknown.
    pub percent_text: String,
    /// Dimmed when disconnected, red when low, else plain.
    pub percent_color: u32,
    /// A charging bolt while charging, a warning sign for a low connected
    /// battery, else nothing.
    pub status_icon: Option<(&'static str, u32)>,
}

pub open spec fn percent_text_of(battery_percent: Option<u8>) -> Seq<char> {
    match battery_percent {
        Some(p) => dec_nat(p as nat) + "%"@,
        None => "-"@,
    }
}

pub open spec fn status_icon_of(d: DeviceStatus) -> Option<(Seq<char>, u32)> {
    if d.charging_state == ChargingState::Charging {
        Some(("\u{E945}"@, COLOR_CHARGING))
    } else if low_battery(d.battery_percent) && d.is_connected {
        Some(("\u{E814}"@, COLOR_LOW))
    } else {
        None
    }
}

/// How the row of device `d` is drawn.
pub fn row_style(d: &DeviceStatus) -> (r: RowStyle)
    ensures
        r.text_color == (if d.is_connected {
            COLOR_TEXT
        } else {
            COLOR_TEXT_DIM
        }),
        r.icon@ == icon_glyph(d.icon),
        r.percent_text@ == percent_text_of(d.battery_percent),
        r.percent_color == (if !d.is_connected {
            COLOR_TEXT_DIM
        } else if low_battery(d.battery_percent) {
            COLOR_LOW
        } else {
            COLOR_TEXT
        }),
        match (r.status_icon, status_icon_of(*d)) {
            (None, None) => true,
            (Some((glyph, color)), Some((g, c))) => glyph@ == g && color == c,
            _ => false,
        },
{
    let text_color = if d.is_connected {
        COLOR_TEXT
    } else {
        COLOR_TEXT_DIM
    };
    let icon = match d.icon {
        DeviceIcon::Mouse => "\u{E962}",
        DeviceIcon::Headset => "\u{E7F6}",
        DeviceIcon::Keyboard => "\u{E92E}",
        DeviceIcon::Controller => "\u{E7FC}",
        DeviceIcon::Generic => "\u{E83F}",
    };
    let percent_text = match d.battery_percent {
        Some(p) => {
            let mut t = fmt_u64(p as u64);
            t.append("%");
            t
        },
        None => "-".to_owned(),
    };
    let low = d.is_low_battery();
    let percent_color = if !d.is_connected {
        COLOR_TEXT_DIM
    } else if low {
        COLOR_LOW
    } else {
        COLOR_TEXT
    };
    let status_icon = if d.charging_state == ChargingState::Charging {
        Some(("\u{E945}", COLOR_CHARGING))
    } else if low && d.is_connected {
        Some(("\u{E814}", COLOR_LOW))
    } else {
        None
    };
    RowStyle { text_color, icon, percent_text, percent_color, status_icon }
}

} // verus!
