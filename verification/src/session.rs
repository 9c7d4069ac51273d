//! Decisions of the application's main loop: which messages end it, and
//! which running processes are earlier instances to stop.

use vstd::prelude::*;

use crate::device::DeviceStatus;
use crate::tray::MenuAction;

verus! {

/// Windows' `WM_QUIT`.
pub const WM_QUIT: u32 = 0x0012;

/// Windows' `WM_HOTKEY`.
pub const WM_HOTKEY: u32 = 0x0312;

/// Id under which Ctrl+Shift+Q is registered.
pub const EXIT_HOTKEY_ID: usize = 1;

/// File name of the application's executable.
pub const EXE_NAME: &'static str = "deskvolt.exe";

/// Whether a window message ends the application: `WM_QUIT`, or the exit
/// hotkey.
pub fn is_exit_message(message: u32, wparam: usize) -> (r: bool)
    ensures
        r == (message == WM_QUIT || (message == WM_HOTKEY && wparam == EXIT_HOTKEY_ID)),
{
    message == WM_QUIT || (message == WM_HOTKEY && wparam == EXIT_HOTKEY_ID)
}

/// The code point of a character with ASCII upper-case letters made
/// lower-case.
pub open spec fn ascii_lower(c: char) -> int {
    if 'A' <= c <= 'Z' {
        (c as u32) + 32
    } else {
        c as u32 as int
    }
}

/// Two texts equal up to the case of ASCII letters.
pub open spec fn eq_ignore_ascii_case(a: Seq<char>, b: Seq<char>) -> bool {
    a.len() == b.len() && forall|i: int| 0 <= i < a.len() ==> ascii_lower(a[i]) == ascii_lower(b[i])
}

fn lower(c: char) -> (r: u32)
    ensures
        r == ascii_lower(c),
{
    if 'A' <= c && c <= 'Z' {
        (c as u32) + 32
    } else {
        c as u32
    }
}

/// Whether a running process is an earlier instance to stop: its
/// executable is `deskvolt.exe` in any ASCII case and it is not this
/// process.
pub fn is_other_instance(exe_name: &str, pid: u32, current_pid: u32) -> (r: bool)
    ensures
        r == (eq_ignore_ascii_case(exe_name@, EXE_NAME@) && pid != current_pid),
{
    if pid == current_pid {
        return false;
    }
    let n = exe_name.unicode_len();
    let m = EXE_NAME.unicode_len();
    if n != m {
        return false;
    }
    let mut i: usize = 0;
    while i < n
        invariant
            n == exe_name@.len(),
            n == EXE_NAME@.len(),
            0 <= i <= n,
            forall|j: int| 0 <= j < i ==> ascii_lower(exe_name@[j]) == ascii_lower(EXE_NAME@[j]),
        decreases n - i,
    {
        if lower(exe_name.get_char(i)) != lower(EXE_NAME.get_char(i)) {
            return false;
        }
        i = i + 1;
    }
    true
}

/// What reaches the main loop: a window message with its `wParam`, the
/// action of a chosen tray menu item, or the statuses of a poll round.
pub enum LoopEvent {
    Message(u32, usize),
    Menu(MenuAction),
    Statuses(Vec<DeviceStatus>),
}

/// What the main loop does with an event: stop, hand the message on to its
/// window, carry out a menu action, or show the statuses in the widget and
/// the tray.
pub enum LoopStep {
    Exit,
    Dispatch,
    Apply(MenuAction),
    Show(Vec<DeviceStatus>),
}

/// How the main loop answers an event.
pub open spec fn loop_next(e: LoopEvent) -> LoopStep {
    match e {
        LoopEvent::Message(message, wparam) => if message == WM_QUIT || (message == WM_HOTKEY
            && wparam == EXIT_HOTKEY_ID) {
            LoopStep::Exit
        } else {
            LoopStep::Dispatch
        },
        LoopEvent::Menu(action) => if action == MenuAction::Exit {
            LoopStep::Exit
        } else {
            LoopStep::Apply(action)
        },
        LoopEvent::Statuses(statuses) => LoopStep::Show(statuses),
    }
}

/// One step of the main loop's decisions.
pub fn loop_step(e: LoopEvent) -> (r: LoopStep)
    ensures
        r == loop_next(e),
{
    match e {
        LoopEvent::Message(message, wparam) => if is_exit_message(message, wparam) {
            LoopStep::Exit
        } else {
            LoopStep::Dispatch
        },
        LoopEvent::Menu(action) => match action {
            MenuAction::Exit => LoopStep::Exit,
            _ => LoopStep::Apply(action),
        },
        LoopEvent::Statuses(statuses) => LoopStep::Show(statuses),
    }
}

/// The main loop ends exactly on `WM_QUIT`, on the exit hotkey, or when
/// Exit is chosen in the tray menu; the statuses of a poll round are shown
/// as they came.
pub proof fn lemma_loop_exits_only_when_asked(e: LoopEvent)
    ensures
        loop_next(e) is Exit <==> match e {
            LoopEvent::Message(message, wparam) => message == WM_QUIT || (message == WM_HOTKEY
                && wparam == EXIT_HOTKEY_ID),
            LoopEvent::Menu(action) => action == MenuAction::Exit,
            LoopEvent::Statuses(_) => false,
        },
        e matches LoopEvent::Statuses(v) ==> loop_next(e) matches LoopStep::Show(w) && w@ == v@,
{
}

} // verus!
