//! What the tray icon shows and what its menu does: the tooltip text, the
//! battery icon's pixels, the poll-interval check marks and the menu items.

use vstd::prelude::*;
use vstd::utf8::{encode_utf8, is_char_boundary};

use crate::device::{ChargingState, DeviceStatus};
use crate::text::{dec_nat, fmt_u64};

verus! {

/// Windows keeps at most this many bytes of a tray tooltip.
pub const TOOLTIP_MAX_BYTES: usize = 127;

/// What the tooltip says of one device.
pub open spec fn device_state_text(d: DeviceStatus) -> Seq<char> {
    if !d.is_connected {
        "Disconnected"@
    } else {
        match d.battery_percent {
            Some(p) => dec_nat(p as nat) + "%"@ + (if d.charging_state == ChargingState::Charging {
                " (charging)"@
            } else {
                ""@
            }),
            None => "Unknown"@,
        }
    }
}

/// The tooltip line of one device.
pub open spec fn device_line(d: DeviceStatus) -> Seq<char> {
    d.name@ + ": "@ + device_state_text(d)
}

/// `DeskVolt`, then one line per device.
pub open spec fn tooltip_lines(devices: Seq<DeviceStatus>) -> Seq<char>
    decreases devices.len(),
{
    if devices.len() == 0 {
        "DeskVolt"@
    } else {
        tooltip_lines(devices.drop_last()) + "\n"@ + device_line(devices.last())
    }
}

/// The whole tooltip before it is cut to size.
pub open spec fn tooltip_full(devices: Seq<DeviceStatus>) -> Seq<char> {
    if devices.len() == 0 {
        "DeskVolt - No devices"@
    } else {
        tooltip_lines(devices)
    }
}

/// Cutting the tooltip to 127 bytes does not split a character.
pub open spec fn tooltip_cut_ok(devices: Seq<DeviceStatus>) -> bool {
    encode_utf8(tooltip_full(devices)).len() > TOOLTIP_MAX_BYTES ==> is_char_boundary(
        encode_utf8(tooltip_full(devices)),
        TOOLTIP_MAX_BYTES as int,
    )
}

fn device_line_text(d: &DeviceStatus) -> (r: String)
    ensures
        r@ == device_line(*d),
{
    let mut r = d.name.as_str().to_owned();
    r.append(": ");
    if !d.is_connected {
        r.append("Disconnected");
    } else {
        match d.battery_percent {
            Some(p) => {
                let digits = fmt_u64(p as u64);
                r.append(digits.as_str());
                r.append("%");
                if d.charging_state == ChargingState::Charging {
                    r.append(" (charging)");
                } else {
                    r.append("");
                }
            },
            None => {
                r.append("Unknown");
            },
        }
    }
    r
}

/// The whole tooltip text before it is cut to the size Windows keeps.
pub fn tooltip_text(devices: &[DeviceStatus]) -> (r: String)
    ensures
        r@ == tooltip_full(devices@),
{
    if devices.len() == 0 {
        return "DeskVolt - No devices".to_owned();
    }
    let mut r = "DeskVolt".to_owned();
    let n = devices.len();
    let mut i: usize = 0;
    while i < n
        invariant
            n == devices@.len(),
            0 <= i <= n,
            r@ == tooltip_lines(devices@.subrange(0, i as int)),
        decreases n - i,
    {
        let line = device_line_text(&devices[i]);
        r.append("\n");
        r.append(line.as_str());
        let ghost pre = devices@.subrange(0, i + 1);
        assert(pre.drop_last() =~= devices@.subrange(0, i as int));
        assert(pre.last() == devices@[i as int]);
        i = i + 1;
    }
    assert(devices@.subrange(0, n as int) =~= devices@);
    r
}

/// The tray tooltip: `DeskVolt` and a line per device (name, then the
/// percentage with ` (charging)` while it charges, `Disconnected` or
/// `Unknown`), or `DeskVolt - No devices`; cut to its first 127 bytes when
/// longer.
pub fn build_tooltip(devices: &[DeviceStatus]) -> (r: String)
    requires
        tooltip_cut_ok(devices@),
    ensures
        encode_utf8(tooltip_full(devices@)).len() <= TOOLTIP_MAX_BYTES ==> r@ == tooltip_full(
            devices@,
        ),
        encode_utf8(tooltip_full(devices@)).len() > TOOLTIP_MAX_BYTES ==> encode_utf8(r@)
            == encode_utf8(tooltip_full(devices@)).subrange(0, TOOLTIP_MAX_BYTES as int),
        encode_utf8(r@).len() <= TOOLTIP_MAX_BYTES,
{
    let full = tooltip_text(devices);
    let text = full.as_str();
    if text.as_bytes().len() > TOOLTIP_MAX_BYTES {
        let (head, _) = text.split_at(TOOLTIP_MAX_BYTES);
        head.to_owned()
    } else {
        full
    }
}

/// Side of the square tray icon, in pixels.
pub const ICON_SIZE: u32 = 32;

/// Fill colour of the battery icon: red below 20 percent, yellow from 20 to
/// 50 percent, green above 50 percent, grey when the level is unknown.
pub open spec fn icon_color(battery_percent: Option<u8>) -> (u8, u8, u8) {
    match battery_percent {
        Some(p) => if p < 20 {
            (220, 80, 80)
        } else if p <= 50 {
            (220, 180, 60)
        } else {
            (80, 200, 80)
        },
        None => (150, 150, 150),
    }
}

/// Width of the filled part of the battery body: 22 pixels for a full
/// battery, half of it when the level is unknown.
pub open spec fn fill_width(battery_percent: Option<u8>) -> int {
    22 * (match battery_percent {
        Some(p) => p as int,
        None => 50,
    }) / 100
}

/// One pixel (red, green, blue, alpha) of the icon: a battery body from
/// (4, 8) to (26, 24) and a tip from (26, 11) to (28, 21), filled from the
/// left, with a light outline and a dark empty part; transparent around it.
pub open spec fn icon_pixel(battery_percent: Option<u8>, x: int, y: int) -> (u8, u8, u8, u8) {
    let in_body = 4 <= x <= 26 && 8 <= y <= 24;
    let in_tip = 26 <= x <= 28 && 11 <= y <= 21;
    let filled = x >= 5 && x < 5 + fill_width(battery_percent) && 9 <= y <= 23;
    let border = x == 4 || x == 26 || y == 8 || y == 24 || (in_tip && (x == 28 || y == 11 || y
        == 21));
    let c = icon_color(battery_percent);
    if in_body || in_tip {
        if filled {
            (c.0, c.1, c.2, 255)
        } else if border {
            (200, 200, 200, 255)
        } else {
            (40, 40, 40, 255)
        }
    } else {
        (0, 0, 0, 0)
    }
}

pub open spec fn channel(p: (u8, u8, u8, u8), k: int) -> u8 {
    if k == 0 {
        p.0
    } else if k == 1 {
        p.1
    } else if k == 2 {
        p.2
    } else {
        p.3
    }
}

/// The icon as RGBA bytes, row by row from the top.
pub open spec fn icon_rgba(battery_percent: Option<u8>) -> Seq<u8> {
    Seq::new(
        4096,
        |i: int| channel(icon_pixel(battery_percent, (i / 4) % 32, (i / 4) / 32), i % 4),
    )
}

fn pixel_at(battery_percent: Option<u8>, fill: u32, color: (u8, u8, u8), x: u32, y: u32) -> (r: (
    u8,
    u8,
    u8,
    u8,
))
    requires
        fill == fill_width(battery_percent),
        color == icon_color(battery_percent),
    ensures
        r == icon_pixel(battery_percent, x as int, y as int),
{
    let in_body = x >= 4 && x <= 26 && y >= 8 && y <= 24;
    let in_tip = x >= 26 && x <= 28 && y >= 11 && y <= 21;
    let filled = x >= 5 && x < 5 + fill && y >= 9 && y <= 23;
    if in_body || in_tip {
        if filled {
            (color.0, color.1, color.2, 255)
        } else {
            let border = x == 4 || x == 26 || y == 8 || y == 24 || (in_tip && (x == 28 || y == 11
                || y == 21));
            if border {
                (200, 200, 200, 255)
            } else {
                (40, 40, 40, 255)
            }
        }
    } else {
        (0, 0, 0, 0)
    }
}

proof fn lemma_quad_index(i: int, k: int)
    requires
        0 <= i,
        0 <= k < 4,
    ensures
        (4 * i + k) / 4 == i,
        (4 * i + k) % 4 == k,
{
    assert((4 * i + k) / 4 == i) by (nonlinear_arith)
        requires
            0 <= i,
            0 <= k < 4,
    ;
    assert((4 * i + k) % 4 == k) by (nonlinear_arith)
        requires
            0 <= i,
            0 <= k < 4,
    ;
}

/// The 32x32 RGBA pixels of the tray battery icon for a battery level.
pub fn battery_icon_rgba(battery_percent: Option<u8>) -> (r: Vec<u8>)
    ensures
        r@ == icon_rgba(battery_percent),
{
    let color: (u8, u8, u8) = match battery_percent {
        Some(p) => if p < 20 {
            (220, 80, 80)
        } else if p <= 50 {
            (220, 180, 60)
        } else {
            (80, 200, 80)
        },
        None => (150, 150, 150),
    };
    let level: u32 = match battery_percent {
        Some(p) => p as u32,
        None => 50,
    };
    let fill = (22 * level) / 100;
    let mut r: Vec<u8> = Vec::new();
    let mut i: u32 = 0;
    while i < 1024
        invariant
            0 <= i <= 1024,
            fill == fill_width(battery_percent),
            color == icon_color(battery_percent),
            r@.len() == 4 * i,
            forall|j: int| 0 <= j < 4 * i ==> r@[j] == icon_rgba(battery_percent)[j],
        decreases 1024 - i,
    {
        let x = i % ICON_SIZE;
        let y = i / ICON_SIZE;
        let px = pixel_at(battery_percent, fill, color, x, y);
        proof {
            lemma_quad_index(i as int, 0);
            lemma_quad_index(i as int, 1);
            lemma_quad_index(i as int, 2);
            lemma_quad_index(i as int, 3);
        }
        r.push(px.0);
        r.push(px.1);
        r.push(px.2);
        r.push(px.3);
        i = i + 1;
    }
    assert(r@ =~= icon_rgba(battery_percent));
    r
}

/// What choosing a tray menu item asks for.
#[derive(Debug, Clone, Copy, PartialEq, Eq, Structural)]
pub enum MenuAction {
    Exit,
    Hide,
    SetPollInterval(u64),
    Nothing,
}

/// Menu item ids.
pub const MENU_HIDE_ID: &'static str = "hide";

pub const MENU_EXIT_ID: &'static str = "exit";

pub const MENU_POLL_2S: &'static str = "poll_2";

pub const MENU_POLL_5S: &'static str = "poll_5";

pub const MENU_POLL_10S: &'static str = "poll_10";

pub const MENU_POLL_30S: &'static str = "poll_30";

/// The action of the menu item with this id: exit, hide the icon, or set the
/// poll interval to 2, 5, 10 or 30 seconds; any other id does nothing.
pub open spec fn menu_action_of(id: Seq<char>) -> MenuAction {
    if id == MENU_EXIT_ID@ {
        MenuAction::Exit
    } else if id == MENU_HIDE_ID@ {
        MenuAction::Hide
    } else if id == MENU_POLL_2S@ {
        MenuAction::SetPollInterval(2)
    } else if id == MENU_POLL_5S@ {
        MenuAction::SetPollInterval(5)
    } else if id == MENU_POLL_10S@ {
        MenuAction::SetPollInterval(10)
    } else if id == MENU_POLL_30S@ {
        MenuAction::SetPollInterval(30)
    } else {
        MenuAction::Nothing
    }
}

fn same_text(a: &str, b: &str) -> (r: bool)
    ensures
        r == (a@ == b@),
{
    let n = a.unicode_len();
    if n != b.unicode_len() {
        return false;
    }
    let mut i: usize = 0;
    while i < n
        invariant
            n == a@.len(),
            n == b@.len(),
            0 <= i <= n,
            forall|j: int| 0 <= j < i ==> a@[j] == b@[j],
        decreases n - i,
    {
        if a.get_char(i) != b.get_char(i) {
            return false;
        }
        i = i + 1;
    }
    assert(a@ =~= b@);
    true
}

/// The action of the menu item with this id.
pub fn menu_action(id: &str) -> (r: MenuAction)
    ensures
        r == menu_action_of(id@),
{
    if same_text(id, MENU_EXIT_ID) {
        MenuAction::Exit
    } else if same_text(id, MENU_HIDE_ID) {
        MenuAction::Hide
    } else if same_text(id, MENU_POLL_2S) {
        MenuAction::SetPollInterval(2)
    } else if same_text(id, MENU_POLL_5S) {
        MenuAction::SetPollInterval(5)
    } else if same_text(id, MENU_POLL_10S) {
        MenuAction::SetPollInterval(10)
    } else if same_text(id, MENU_POLL_30S) {
        MenuAction::SetPollInterval(30)
    } else {
        MenuAction::Nothing
    }
}

/// Check marks of the 2 s, 5 s, 10 s and 30 s items when the menu is built:
/// an interval that is none of the first three checks the 30 s item.
pub fn initial_poll_checks(interval_secs: u64) -> (r: [bool; 4])
    ensures
        r[0] == (interval_secs == 2),
        r[1] == (interval_secs == 5),
        r[2] == (interval_secs == 10),
        r[3] == (interval_secs == 30 || (interval_secs != 2 && interval_secs != 5 && interval_secs
            != 10)),
{
    [
        interval_secs == 2,
        interval_secs == 5,
        interval_secs == 10,
        interval_secs == 30 || (interval_secs != 2 && interval_secs != 5 && interval_secs != 10),
    ]
}

/// Tooltip shown until the first device statuses arrive.
pub const LOADING_TOOLTIP: &'static str = "DeskVolt - Loading...";

/// How the tray starts: whether the icon is shown, its tooltip, and the
/// check marks of the 2 s, 5 s, 10 s and 30 s items.
#[derive(Debug, Clone, Copy, PartialEq, Eq)]
pub struct TrayStart {
    pub visible: bool,
    pub tooltip: &'static str,
    pub poll_checks: [bool; 4],
}

/// How the tray starts for the saved poll interval and hidden flag: shown
/// unless it was hidden, with the loading tooltip, and the saved interval's
/// item checked.
pub fn initial_tray_state(poll_interval_secs: u64, tray_hidden: bool) -> (r: TrayStart)
    ensures
        r.visible == !tray_hidden,
        r.tooltip@ == "DeskVolt - Loading..."@,
        r.poll_checks[0] == (poll_interval_secs == 2),
        r.poll_checks[1] == (poll_interval_secs == 5),
        r.poll_checks[2] == (poll_interval_secs == 10),
        r.poll_checks[3] == (poll_interval_secs == 30 || (poll_interval_secs != 2
            && poll_interval_secs != 5 && poll_interval_secs != 10)),
{
    TrayStart {
        visible: !tray_hidden,
        tooltip: LOADING_TOOLTIP,
        poll_checks: initial_poll_checks(poll_interval_secs),
    }
}

/// Check marks of the 2 s, 5 s, 10 s and 30 s items after an interval is
/// chosen: exactly the item of that interval.
pub fn poll_interval_checks(interval_secs: u64) -> (r: [bool; 4])
    ensures
        r[0] == (interval_secs == 2),
        r[1] == (interval_secs == 5),
        r[2] == (interval_secs == 10),
        r[3] == (interval_secs == 30),
{
    [interval_secs == 2, interval_secs == 5, interval_secs == 10, interval_secs == 30]
}

pub open spec fn min_option(a: Option<u8>, b: Option<u8>) -> Option<u8> {
    match (a, b) {
        (None, _) => b,
        (_, None) => a,
        (Some(x), Some(y)) => Some(if x <= y {
            x
        } else {
            y
        }),
    }
}

/// The lowest level among the connected devices that report one.
pub open spec fn lowest_connected_battery(devices: Seq<DeviceStatus>) -> Option<u8>
    decreases devices.len(),
{
    if devices.len() == 0 {
        None
    } else {
        let rest = lowest_connected_battery(devices.drop_last());
        let d = devices.last();
        if d.is_connected {
            min_option(rest, d.battery_percent)
        } else {
            rest
        }
    }
}

/// The level the tray icon shows: the lowest among the connected devices
/// that report one.
pub fn min_connected_battery(devices: &[DeviceStatus]) -> (r: Option<u8>)
    ensures
        r == lowest_connected_battery(devices@),
{
    let mut lowest: Option<u8> = None;
    let n = devices.len();
    let mut i: usize = 0;
    while i < n
        invariant
            n == devices@.len(),
            0 <= i <= n,
            lowest == lowest_connected_battery(devices@.subrange(0, i as int)),
        decreases n - i,
    {
        let d = &devices[i];
        if d.is_connected {
            lowest = match (lowest, d.battery_percent) {
                (None, b) => b,
                (a, None) => a,
                (Some(x), Some(y)) => Some(
                    if x <= y {
                        x
                    } else {
                        y
                    },
                ),
            };
        }
        let ghost pre = devices@.subrange(0, i + 1);
        assert(pre.drop_last() =~= devices@.subrange(0, i as int));
        assert(pre.last() == devices@[i as int]);
        i = i + 1;
    }
    assert(devices@.subrange(0, n as int) =~= devices@);
    lowest
}

} // verus!
