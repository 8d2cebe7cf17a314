//! The Shift+Click guard shared by the low-level keyboard and mouse hooks.
//!
//! A left click while Shift is held arms the guard and records the window
//! that had the focus. The next Shift release is then swallowed and replaced
//! by a release that is posted to that window and injected, so that the target
//! application never sees the original release and does not toggle its IME
//! mode. A wheel turn, or any Shift release, disarms the guard.

use vstd::prelude::*;
use crate::text::{decimal, push_decimal};
use crate::win32::{
    KEYEVENTF_KEYUP, VK_LSHIFT, VK_RSHIFT, WM_KEYDOWN, WM_KEYUP, WM_LBUTTONDOWN, WM_MOUSEHWHEEL,
    WM_MOUSEWHEEL, WM_SYSKEYUP,
};

verus! {

/// The `lParam` of the replacement key release: repeat count 1, scan code 0,
/// not extended, no context code, previous state down, transition up.
pub const KEYUP_LPARAM: u32 = 0xC000_0001;

/// What the two hooks remember between events.
#[derive(Clone, Copy, Debug, PartialEq, Eq)]
pub struct HookState {
    /// A Shift key is held down.
    pub shift_down: bool,
    /// A Shift+left-click selection happened since the last Shift release.
    pub guard_armed: bool,
    /// The window that had the focus when the guard was armed (0: none).
    pub target_window: isize,
    /// How many Shift releases have been replaced so far (wrapping).
    pub suppress_count: u64,
}

/// Where the replacement release goes.
#[derive(Clone, Copy, Debug, PartialEq, Eq)]
pub enum KeyupTarget {
    /// The window recorded when the guard was armed.
    Window(isize),
    /// The window that has the focus now (none was recorded).
    Foreground,
}

/// What the keyboard hook does with an event.
#[derive(Clone, Copy, Debug, PartialEq, Eq)]
pub enum KeyboardAction {
    /// Hand the event on to the next hook.
    PassThrough,
    /// Swallow the event, show the notice numbered `notice_count`, and send a
    /// release of `vk_code` to `target` instead.
    Suppress { target: KeyupTarget, vk_code: u32, notice_count: u64 },
}

/// What the mouse hook does with an event; every mouse event is handed on.
#[derive(Clone, Copy, Debug, PartialEq, Eq)]
pub enum MouseAction {
    /// Nothing more to do.
    PassThrough,
    /// Read the foreground window and arm the guard with it (`arm_guard`).
    ArmGuard,
}

/// What the message loop does with the value `GetMessage` returned.
#[derive(Clone, Copy, Debug, PartialEq, Eq)]
pub enum LoopStep {
    /// `GetMessage` failed: stop with the thread's last error.
    Fail,
    /// `WM_QUIT` arrived: leave the loop.
    Quit,
    /// Translate and dispatch the message, then wait for the next one.
    Dispatch,
}

/// The keyboard input that replaces a swallowed Shift release.
#[derive(Clone, Copy, Debug, PartialEq, Eq)]
pub struct KeyInput {
    pub virtual_key: u16,
    pub scan_code: u16,
    pub flags: u32,
    pub time: u32,
    pub extra_info: usize,
}

/// Either Shift key.
pub open spec fn is_shift_key(vk_code: u32) -> bool {
    vk_code == VK_LSHIFT || vk_code == VK_RSHIFT
}

/// A key release, plain or while Alt is held.
pub open spec fn is_key_release(message: u32) -> bool {
    message == WM_KEYUP || message == WM_SYSKEYUP
}

/// A turn of the vertical or horizontal wheel.
pub open spec fn is_wheel(message: u32) -> bool {
    message == WM_MOUSEWHEEL || message == WM_MOUSEHWHEEL
}

/// The counter after one more replaced release (it wraps around).
pub open spec fn next_count(n: u64) -> u64 {
    if n == u64::MAX {
        0
    } else {
        (n + 1) as u64
    }
}

/// The state before any event.
pub open spec fn initial_state() -> HookState {
    HookState { shift_down: false, guard_armed: false, target_window: 0, suppress_count: 0 }
}

/// A disarmed guard has no recorded window.
pub open spec fn well_formed(s: HookState) -> bool {
    !s.guard_armed ==> s.target_window == 0
}

/// Where a replacement release goes, given the recorded window.
pub open spec fn keyup_target(window: isize) -> KeyupTarget {
    if window != 0 {
        KeyupTarget::Window(window)
    } else {
        KeyupTarget::Foreground
    }
}

/// The keyboard hook's transition for an event with hook code `code`,
/// window message `message` and virtual-key code `vk_code`.
pub open spec fn keyboard_transition(s: HookState, code: i32, message: u32, vk_code: u32) -> (
    HookState,
    KeyboardAction,
) {
    if code >= 0 && is_shift_key(vk_code) {
        if message == WM_KEYDOWN {
            (HookState { shift_down: true, ..s }, KeyboardAction::PassThrough)
        } else if is_key_release(message) {
            let released = HookState {
                shift_down: false,
                guard_armed: false,
                target_window: 0,
                ..s
            };
            if s.guard_armed {
                (
                    HookState { suppress_count: next_count(s.suppress_count), ..released },
                    KeyboardAction::Suppress {
                        target: keyup_target(s.target_window),
                        vk_code,
                        notice_count: s.suppress_count,
                    },
                )
            } else {
                (released, KeyboardAction::PassThrough)
            }
        } else {
            (s, KeyboardAction::PassThrough)
        }
    } else {
        (s, KeyboardAction::PassThrough)
    }
}

/// The mouse hook's transition for an event with hook code `code` and
/// window message `message`.
pub open spec fn mouse_transition(s: HookState, code: i32, message: u32) -> (HookState, MouseAction) {
    if code >= 0 {
        if s.shift_down && message == WM_LBUTTONDOWN {
            (s, MouseAction::ArmGuard)
        } else if is_wheel(message) {
            (HookState { guard_armed: false, target_window: 0, ..s }, MouseAction::PassThrough)
        } else {
            (s, MouseAction::PassThrough)
        }
    } else {
        (s, MouseAction::PassThrough)
    }
}

/// The state once the guard is armed with the window `target_window`.
pub open spec fn armed(s: HookState, target_window: isize) -> HookState {
    HookState { guard_armed: true, target_window, ..s }
}

impl HookState {
    /// The state before any event: nothing held, guard disarmed, no window.
    pub fn new() -> (s: Self)
        ensures
            s == initial_state(),
    {
        HookState { shift_down: false, guard_armed: false, target_window: 0, suppress_count: 0 }
    }

    /// Handles one low-level keyboard event.
    pub fn on_keyboard(&mut self, code: i32, message: u32, vk_code: u32) -> (action:
        KeyboardAction)
        ensures
            (*final(self), action) == keyboard_transition(*old(self), code, message, vk_code),
            // Anything but a press or release of Shift changes nothing and is handed on.
            !(code >= 0 && (vk_code == VK_LSHIFT || vk_code == VK_RSHIFT) && (message
                == WM_KEYDOWN || message == WM_KEYUP || message == WM_SYSKEYUP)) ==> (*final(self)
                == *old(self) && action == KeyboardAction::PassThrough),
            // A Shift press (auto-repeat included) only marks Shift as held.
            code >= 0 && (vk_code == VK_LSHIFT || vk_code == VK_RSHIFT) && message == WM_KEYDOWN
                ==> (action == KeyboardAction::PassThrough && final(self).shift_down
                && final(self).guard_armed == old(self).guard_armed && final(self).target_window
                == old(self).target_window && final(self).suppress_count
                == old(self).suppress_count),
            // A Shift release lifts Shift and disarms the guard; it is replaced
            // exactly when the guard was armed, towards the recorded window.
            code >= 0 && (vk_code == VK_LSHIFT || vk_code == VK_RSHIFT) && (message == WM_KEYUP
                || message == WM_SYSKEYUP) ==> ({
                &&& !final(self).shift_down
                &&& !final(self).guard_armed
                &&& final(self).target_window == 0
                &&& old(self).guard_armed ==> action == KeyboardAction::Suppress {
                    target: if old(self).target_window != 0 {
                        KeyupTarget::Window(old(self).target_window)
                    } else {
                        KeyupTarget::Foreground
                    },
                    vk_code,
                    notice_count: old(self).suppress_count,
                }
                &&& old(self).guard_armed ==> final(self).suppress_count == (if old(
                    self,
                ).suppress_count == u64::MAX {
                    0
                } else {
                    old(self).suppress_count + 1
                })
                &&& !old(self).guard_armed ==> action == KeyboardAction::PassThrough
                &&& !old(self).guard_armed ==> final(self).suppress_count
                    == old(self).suppress_count
            }),
    {
        if code >= 0 && (vk_code == VK_LSHIFT || vk_code == VK_RSHIFT) {
            if message == WM_KEYDOWN {
                self.shift_down = true;
                KeyboardAction::PassThrough
            } else if message == WM_KEYUP || message == WM_SYSKEYUP {
                let should_suppress = self.guard_armed;
                let recorded = self.target_window;
                self.shift_down = false;
                self.guard_armed = false;
                self.target_window = 0;
                if should_suppress {
                    let count = self.suppress_count;
                    self.suppress_count = if count == u64::MAX {
                        0
                    } else {
                        count + 1
                    };
                    let target = if recorded != 0 {
                        KeyupTarget::Window(recorded)
                    } else {
                        KeyupTarget::Foreground
                    };
                    KeyboardAction::Suppress { target, vk_code, notice_count: count }
                } else {
                    KeyboardAction::PassThrough
                }
            } else {
                KeyboardAction::PassThrough
            }
        } else {
            KeyboardAction::PassThrough
        }
    }

    /// Handles one low-level mouse event. On `ArmGuard` the caller reads the
    /// foreground window and passes it to `arm_guard`.
    pub fn on_mouse(&mut self, code: i32, message: u32) -> (action: MouseAction)
        ensures
            (*final(self), action) == mouse_transition(*old(self), code, message),
            // The mouse never changes whether Shift is held, nor the counter.
            final(self).shift_down == old(self).shift_down,
            final(self).suppress_count == old(self).suppress_count,
            // It asks to arm exactly on a left click while Shift is held, and
            // changes nothing then (the caller arms with the foreground window).
            (action == MouseAction::ArmGuard) == (code >= 0 && old(self).shift_down && message
                == WM_LBUTTONDOWN),
            action == MouseAction::ArmGuard ==> *final(self) == *old(self),
            // A wheel turn disarms; any other mouse event keeps the guard as it is.
            code >= 0 && (message == WM_MOUSEWHEEL || message == WM_MOUSEHWHEEL) ==> (
            !final(self).guard_armed && final(self).target_window == 0),
            !(code >= 0 && (message == WM_MOUSEWHEEL || message == WM_MOUSEHWHEEL)) ==> (
            final(self).guard_armed == old(self).guard_armed && final(self).target_window == old(
                self,
            ).target_window),
    {
        if code >= 0 {
            if self.shift_down && message == WM_LBUTTONDOWN {
                MouseAction::ArmGuard
            } else if message == WM_MOUSEWHEEL || message == WM_MOUSEHWHEEL {
                self.guard_armed = false;
                self.target_window = 0;
                MouseAction::PassThrough
            } else {
                MouseAction::PassThrough
            }
        } else {
            MouseAction::PassThrough
        }
    }

    /// Arms the guard and records the window the replacement release goes to.
    pub fn arm_guard(&mut self, target_window: isize)
        ensures
            *final(self) == armed(*old(self), target_window),
            final(self).guard_armed,
            final(self).target_window == target_window,
            final(self).shift_down == old(self).shift_down,
            final(self).suppress_count == old(self).suppress_count,
    {
        self.guard_armed = true;
        self.target_window = target_window;
    }
}

/// The line shown when a release is replaced: the first time on a line of its
/// own, later on the same line again (cursor up one line, carriage return)
/// with the number of earlier replacements.
pub open spec fn notice_text(count: u64) -> Seq<char> {
    if count == 0 {
        "[Shift+Click] Selection IME mode protected"@ + "\n"@
    } else {
        "\x1b[1A\r"@ + "[Shift+Click] Selection IME mode protected"@ + " (+"@ + decimal(count as nat)
            + ")\n"@
    }
}

/// The text to print for the replacement numbered `count`.
pub fn suppression_notice(count: u64) -> (text: String)
    ensures
        text@ == notice_text(count),
        count == 0 ==> text@ == "[Shift+Click] Selection IME mode protected"@ + "\n"@,
        count != 0 ==> text@ == "\x1b[1A\r"@ + "[Shift+Click] Selection IME mode protected"@
            + " (+"@ + decimal(count as nat) + ")\n"@,
{
    if count == 0 {
        let mut text = String::from_str("[Shift+Click] Selection IME mode protected");
        text.append("\n");
        text
    } else {
        let mut text = String::from_str("\x1b[1A\r");
        text.append("[Shift+Click] Selection IME mode protected");
        text.append(" (+");
        push_decimal(&mut text, count);
        text.append(")\n");
        text
    }
}

/// The messages to post, in order, to `window` so that it sees the release of
/// `vk_code` (passed as `wParam`, with `KEYUP_LPARAM` as `lParam`): none when
/// there is no window.
pub fn keyup_messages(window: isize) -> (messages: Vec<u32>)
    ensures
        window == 0 ==> messages@ == Seq::<u32>::empty(),
        window != 0 ==> messages@ == seq![WM_KEYUP, WM_SYSKEYUP],
{
    let mut messages: Vec<u32> = Vec::new();
    if window != 0 {
        messages.push(WM_KEYUP);
        messages.push(WM_SYSKEYUP);
    }
    messages
}

/// The keyboard input to inject for the release of `vk_code`: the key code
/// truncated to 16 bits, the key-up flag, and nothing else.
pub fn keyup_input(vk_code: u32) -> (input: KeyInput)
    ensures
        input.virtual_key == vk_code % 0x1_0000,
        input.scan_code == 0,
        input.flags == KEYEVENTF_KEYUP,
        input.time == 0,
        input.extra_info == 0,
{
    let virtual_key: u16 = (vk_code % 0x1_0000) as u16;
    KeyInput { virtual_key, scan_code: 0, flags: KEYEVENTF_KEYUP, time: 0, extra_info: 0 }
}

/// What to do with the value `GetMessage` returned: -1 is a failure, 0 is
/// `WM_QUIT`, anything else is a message to dispatch.
pub fn message_loop_step(ret: i32) -> (step: LoopStep)
    ensures
        ret == -1 ==> step == LoopStep::Fail,
        ret == 0 ==> step == LoopStep::Quit,
        ret != -1 && ret != 0 ==> step == LoopStep::Dispatch,
{
    if ret == -1 {
        LoopStep::Fail
    } else if ret == 0 {
        LoopStep::Quit
    } else {
        LoopStep::Dispatch
    }
}

/// One event as the two hooks see it. A mouse event carries the window that
/// had the focus when it arrived, which the guard records when it arms.
#[derive(Clone, Copy, Debug, PartialEq, Eq)]
pub enum HookEvent {
    Keyboard { code: i32, message: u32, vk_code: u32 },
    Mouse { code: i32, message: u32, foreground: isize },
}

/// The state after one event, the foreground window recorded when the mouse
/// hook asks for it.
pub open spec fn step(s: HookState, e: HookEvent) -> HookState {
    match e {
        HookEvent::Keyboard { code, message, vk_code } => keyboard_transition(
            s,
            code,
            message,
            vk_code,
        ).0,
        HookEvent::Mouse { code, message, foreground } => {
            let (t, action) = mouse_transition(s, code, message);
            if action == MouseAction::ArmGuard {
                armed(t, foreground)
            } else {
                t
            }
        },
    }
}

/// The state after a sequence of events, first to last.
pub open spec fn run_events(s: HookState, events: Seq<HookEvent>) -> HookState
    decreases events.len(),
{
    if events.len() == 0 {
        s
    } else {
        step(run_events(s, events.drop_last()), events.last())
    }
}

/// The events that disarm the guard: a Shift release and a wheel turn.
pub open spec fn disarms(e: HookEvent) -> bool {
    match e {
        HookEvent::Keyboard { code, message, vk_code } => code >= 0 && is_shift_key(vk_code)
            && is_key_release(message),
        HookEvent::Mouse { code, message, .. } => code >= 0 && is_wheel(message),
    }
}

/// An armed guard stays armed through any events that are neither a Shift
/// release nor a wheel turn.
pub proof fn guard_stays_armed(s: HookState, events: Seq<HookEvent>)
    requires
        s.guard_armed,
        forall|i: int| 0 <= i < events.len() ==> !disarms(#[trigger] events[i]),
    ensures
        run_events(s, events).guard_armed,
    decreases events.len(),
{
    if events.len() > 0 {
        let rest = events.drop_last();
        assert forall|i: int| 0 <= i < rest.len() implies !disarms(#[trigger] rest[i]) by {
            assert(rest[i] == events[i]);
        }
        guard_stays_armed(s, rest);
        assert(!disarms(events[events.len() - 1]));
    }
}

/// A Shift release that follows a Shift+left-click, with any events between
/// them that are neither a Shift release nor a wheel turn, is swallowed and
/// replaced by a release of the same key, whatever state the hooks were in.
pub proof fn selection_release_is_replaced(
    s: HookState,
    press_code: i32,
    press_vk: u32,
    click_code: i32,
    foreground: isize,
    between: Seq<HookEvent>,
    release_code: i32,
    release_message: u32,
    release_vk: u32,
)
    requires
        press_code >= 0,
        is_shift_key(press_vk),
        click_code >= 0,
        forall|i: int| 0 <= i < between.len() ==> !disarms(#[trigger] between[i]),
        release_code >= 0,
        is_key_release(release_message),
        is_shift_key(release_vk),
    ensures
        ({
            let before = run_events(
                s,
                seq![
                    HookEvent::Keyboard { code: press_code, message: WM_KEYDOWN, vk_code: press_vk },
                    HookEvent::Mouse { code: click_code, message: WM_LBUTTONDOWN, foreground },
                ] + between,
            );
            let (after, action) = keyboard_transition(
                before,
                release_code,
                release_message,
                release_vk,
            );
            &&& action == KeyboardAction::Suppress {
                target: keyup_target(before.target_window),
                vk_code: release_vk,
                notice_count: before.suppress_count,
            }
            &&& !after.guard_armed
            &&& after.target_window == 0
            &&& !after.shift_down
            &&& after.suppress_count == next_count(before.suppress_count)
        }),
{
    let press = HookEvent::Keyboard { code: press_code, message: WM_KEYDOWN, vk_code: press_vk };
    let click = HookEvent::Mouse { code: click_code, message: WM_LBUTTONDOWN, foreground };
    let prefix = seq![press, click];
    let all = prefix + between;
    let s2 = run_events(s, prefix);
    assert(prefix.drop_last() =~= seq![press]);
    assert(seq![press].drop_last() =~= Seq::<HookEvent>::empty());
    let s1 = run_events(s, seq![press]);
    assert(run_events(s, Seq::<HookEvent>::empty()) == s);
    assert(s1 == step(s, press));
    assert(s1.shift_down);
    assert(s2 == step(s1, click));
    assert(s2.guard_armed);
    run_events_append(s, prefix, between);
    guard_stays_armed(s2, between);
    assert(all =~= prefix + between);
}

/// A left click (with a hook code to process): the only event that can arm
/// the guard.
pub open spec fn is_left_click(e: HookEvent) -> bool {
    match e {
        HookEvent::Mouse { code, message, .. } => code >= 0 && message == WM_LBUTTONDOWN,
        HookEvent::Keyboard { .. } => false,
    }
}

/// A disarmed guard stays disarmed, with no recorded window, through any
/// events without a left click.
pub proof fn guard_stays_disarmed(s: HookState, events: Seq<HookEvent>)
    requires
        !s.guard_armed,
        s.target_window == 0,
        forall|i: int| 0 <= i < events.len() ==> !is_left_click(#[trigger] events[i]),
    ensures
        !run_events(s, events).guard_armed,
        run_events(s, events).target_window == 0,
    decreases events.len(),
{
    if events.len() > 0 {
        let rest = events.drop_last();
        assert forall|i: int| 0 <= i < rest.len() implies !is_left_click(#[trigger] rest[i]) by {
            assert(rest[i] == events[i]);
        }
        guard_stays_disarmed(s, rest);
        assert(!is_left_click(events[events.len() - 1]));
    }
}

/// One Shift+Click replaces at most one release: once a release was
/// replaced, every later Shift release is handed on until another left click.
pub proof fn one_selection_one_replacement(
    s: HookState,
    code: i32,
    message: u32,
    vk_code: u32,
    between: Seq<HookEvent>,
    next_code: i32,
    next_message: u32,
    next_vk: u32,
)
    requires
        code >= 0,
        is_shift_key(vk_code),
        is_key_release(message),
        forall|i: int| 0 <= i < between.len() ==> !is_left_click(#[trigger] between[i]),
    ensures
        ({
            let (after, _) = keyboard_transition(s, code, message, vk_code);
            let later = run_events(after, between);
            keyboard_transition(later, next_code, next_message, next_vk).1
                == KeyboardAction::PassThrough
        }),
{
    let (after, _) = keyboard_transition(s, code, message, vk_code);
    guard_stays_disarmed(after, between);
}

/// A release of Shift (with a hook code to process): the only event that
/// lifts Shift.
pub open spec fn releases_shift(e: HookEvent) -> bool {
    match e {
        HookEvent::Keyboard { code, message, vk_code } => code >= 0 && (vk_code == VK_LSHIFT
            || vk_code == VK_RSHIFT) && (message == WM_KEYUP || message == WM_SYSKEYUP),
        HookEvent::Mouse { .. } => false,
    }
}

/// No mouse event changes whether Shift is held or the counter, and a mouse
/// event asks to arm exactly when it is a left click while Shift is held.
pub proof fn mouse_keeps_shift(s: HookState, code: i32, message: u32)
    ensures
        mouse_transition(s, code, message).0.shift_down == s.shift_down,
        mouse_transition(s, code, message).0.suppress_count == s.suppress_count,
        (mouse_transition(s, code, message).1 == MouseAction::ArmGuard) == (code >= 0
            && s.shift_down && message == WM_LBUTTONDOWN),
{
}

/// Shift stays held through any events that do not release it.
pub proof fn shift_stays_down(s: HookState, events: Seq<HookEvent>)
    requires
        s.shift_down,
        forall|i: int| 0 <= i < events.len() ==> !releases_shift(#[trigger] events[i]),
    ensures
        run_events(s, events).shift_down,
    decreases events.len(),
{
    if events.len() > 0 {
        let rest = events.drop_last();
        assert forall|i: int| 0 <= i < rest.len() implies !releases_shift(#[trigger] rest[i]) by {
            assert(rest[i] == events[i]);
        }
        shift_stays_down(s, rest);
        assert(!releases_shift(events[events.len() - 1]));
    }
}

/// After Shift is pressed, a left click arms the guard, whatever events came
/// between them as long as none released Shift.
pub proof fn click_after_shift_press_arms(
    s: HookState,
    press_code: i32,
    press_vk: u32,
    between: Seq<HookEvent>,
    click_code: i32,
)
    requires
        press_code >= 0,
        press_vk == VK_LSHIFT || press_vk == VK_RSHIFT,
        forall|i: int| 0 <= i < between.len() ==> !releases_shift(#[trigger] between[i]),
        click_code >= 0,
    ensures
        ({
            let press = HookEvent::Keyboard {
                code: press_code,
                message: WM_KEYDOWN,
                vk_code: press_vk,
            };
            let before = run_events(s, seq![press] + between);
            mouse_transition(before, click_code, WM_LBUTTONDOWN).1 == MouseAction::ArmGuard
        }),
{
    let press = HookEvent::Keyboard { code: press_code, message: WM_KEYDOWN, vk_code: press_vk };
    let s1 = run_events(s, seq![press]);
    assert(seq![press].drop_last() =~= Seq::<HookEvent>::empty());
    assert(run_events(s, Seq::<HookEvent>::empty()) == s);
    assert(s1 == step(s, press));
    assert(s1.shift_down);
    run_events_append(s, seq![press], between);
    shift_stays_down(s1, between);
}

/// An armed guard keeps its recorded window through any events that neither
/// disarm it nor are a left click.
pub proof fn recorded_window_kept(s: HookState, events: Seq<HookEvent>)
    requires
        s.guard_armed,
        forall|i: int|
            0 <= i < events.len() ==> !disarms(#[trigger] events[i]) && !is_left_click(events[i]),
    ensures
        run_events(s, events).guard_armed,
        run_events(s, events).target_window == s.target_window,
    decreases events.len(),
{
    if events.len() > 0 {
        let rest = events.drop_last();
        assert forall|i: int| 0 <= i < rest.len() implies !disarms(#[trigger] rest[i])
            && !is_left_click(rest[i]) by {
            assert(rest[i] == events[i]);
        }
        recorded_window_kept(s, rest);
        let e = events[events.len() - 1];
        assert(!disarms(e) && !is_left_click(e));
    }
}

/// The release that follows a Shift+click at window `w` goes to `w` (to the
/// foreground window when `w` is 0), whatever events came between them as
/// long as none disarmed the guard or clicked again; repeated Shift presses
/// included.
pub proof fn release_goes_to_window_recorded_at_click(
    s: HookState,
    press_code: i32,
    press_vk: u32,
    click_code: i32,
    w: isize,
    between: Seq<HookEvent>,
    release_code: i32,
    release_message: u32,
    release_vk: u32,
)
    requires
        press_code >= 0,
        press_vk == VK_LSHIFT || press_vk == VK_RSHIFT,
        click_code >= 0,
        forall|i: int|
            0 <= i < between.len() ==> !disarms(#[trigger] between[i]) && !is_left_click(
                between[i],
            ),
        release_code >= 0,
        release_message == WM_KEYUP || release_message == WM_SYSKEYUP,
        release_vk == VK_LSHIFT || release_vk == VK_RSHIFT,
    ensures
        ({
            let before = run_events(
                s,
                seq![
                    HookEvent::Keyboard { code: press_code, message: WM_KEYDOWN, vk_code: press_vk },
                    HookEvent::Mouse { code: click_code, message: WM_LBUTTONDOWN, foreground: w },
                ] + between,
            );
            keyboard_transition(before, release_code, release_message, release_vk).1 matches
                KeyboardAction::Suppress { target, vk_code, .. } && vk_code == release_vk && target
                == (if w != 0 {
                KeyupTarget::Window(w)
            } else {
                KeyupTarget::Foreground
            })
        }),
{
    let press = HookEvent::Keyboard { code: press_code, message: WM_KEYDOWN, vk_code: press_vk };
    let click = HookEvent::Mouse { code: click_code, message: WM_LBUTTONDOWN, foreground: w };
    let prefix = seq![press, click];
    let s2 = run_events(s, prefix);
    assert(prefix.drop_last() =~= seq![press]);
    assert(seq![press].drop_last() =~= Seq::<HookEvent>::empty());
    let s1 = run_events(s, seq![press]);
    assert(run_events(s, Seq::<HookEvent>::empty()) == s);
    assert(s1 == step(s, press));
    assert(s2 == step(s1, click));
    assert(s2.guard_armed && s2.target_window == w);
    run_events_append(s, prefix, between);
    recorded_window_kept(s2, between);
}

/// Running two sequences one after the other is running their concatenation.
pub proof fn run_events_append(s: HookState, first: Seq<HookEvent>, second: Seq<HookEvent>)
    ensures
        run_events(s, first + second) == run_events(run_events(s, first), second),
    decreases second.len(),
{
    if second.len() == 0 {
        assert(first + second =~= first);
    } else {
        assert((first + second).drop_last() =~= first + second.drop_last());
        run_events_append(s, first, second.drop_last());
    }
}

/// Right after Shift is pressed and the left button clicked, the release goes
/// to the window recorded at the click, or to the foreground window when none
/// was recorded.
pub proof fn selection_release_goes_to_clicked_window(
    s: HookState,
    press_code: i32,
    press_vk: u32,
    click_code: i32,
    foreground: isize,
    release_code: i32,
    release_message: u32,
    release_vk: u32,
)
    requires
        press_code >= 0,
        is_shift_key(press_vk),
        click_code >= 0,
        release_code >= 0,
        is_key_release(release_message),
        is_shift_key(release_vk),
    ensures
        ({
            let (s1, _) = keyboard_transition(s, press_code, WM_KEYDOWN, press_vk);
            let (s2, click) = mouse_transition(s1, click_code, WM_LBUTTONDOWN);
            let s3 = armed(s2, foreground);
            let (_, action) = keyboard_transition(s3, release_code, release_message, release_vk);
            &&& click == MouseAction::ArmGuard
            &&& action == KeyboardAction::Suppress {
                target: keyup_target(foreground),
                vk_code: release_vk,
                notice_count: s.suppress_count,
            }
        }),
{
}

/// Every Shift release leaves Shift up and the guard disarmed with no
/// recorded window, so one selection replaces at most one release.
pub proof fn release_disarms(s: HookState, code: i32, message: u32, vk_code: u32)
    requires
        code >= 0,
        is_shift_key(vk_code),
        is_key_release(message),
    ensures
        ({
            let (after, _) = keyboard_transition(s, code, message, vk_code);
            &&& !after.shift_down
            &&& !after.guard_armed
            &&& after.target_window == 0
        }),
{
}

/// A Shift release while the guard is disarmed is handed on untouched.
pub proof fn unguarded_release_passes(s: HookState, code: i32, message: u32, vk_code: u32)
    requires
        !s.guard_armed,
    ensures
        keyboard_transition(s, code, message, vk_code).1 == KeyboardAction::PassThrough,
{
}

/// A wheel turn disarms the guard, so the following Shift release is handed on.
pub proof fn wheel_cancels_guard(
    s: HookState,
    wheel_code: i32,
    wheel_message: u32,
    code: i32,
    message: u32,
    vk_code: u32,
)
    requires
        wheel_code >= 0,
        is_wheel(wheel_message),
    ensures
        ({
            let (t, action) = mouse_transition(s, wheel_code, wheel_message);
            &&& action == MouseAction::PassThrough
            &&& !t.guard_armed
            &&& t.target_window == 0
            &&& t.shift_down == s.shift_down
            &&& t.suppress_count == s.suppress_count
            &&& keyboard_transition(t, code, message, vk_code).1 == KeyboardAction::PassThrough
        }),
{
}

/// Keys other than Shift, and events the system marks as not to be
/// processed (negative hook code), change nothing and are handed on.
pub proof fn other_keys_untouched(s: HookState, code: i32, message: u32, vk_code: u32)
    requires
        code < 0 || !is_shift_key(vk_code),
    ensures
        keyboard_transition(s, code, message, vk_code) == (s, KeyboardAction::PassThrough),
{
}

/// A click without Shift held does not arm the guard, and mouse events with a
/// negative hook code change nothing.
pub proof fn click_without_shift_does_not_arm(s: HookState, code: i32, message: u32)
    requires
        !s.shift_down || code < 0,
    ensures
        mouse_transition(s, code, message).1 == MouseAction::PassThrough,
        code < 0 ==> mouse_transition(s, code, message).0 == s,
{
}

/// The counter moves, by one, exactly when a release is replaced.
pub proof fn count_moves_only_on_replacement(s: HookState, code: i32, message: u32, vk_code: u32)
    ensures
        ({
            let (after, action) = keyboard_transition(s, code, message, vk_code);
            &&& action is Suppress ==> after.suppress_count == next_count(s.suppress_count)
            &&& action is PassThrough ==> after.suppress_count == s.suppress_count
        }),
{
}

/// The initial state is well formed, and every transition keeps the state
/// well formed: a disarmed guard never keeps a recorded window.
pub proof fn transitions_keep_well_formed(
    s: HookState,
    code: i32,
    message: u32,
    vk_code: u32,
    target_window: isize,
)
    requires
        well_formed(s),
    ensures
        well_formed(initial_state()),
        well_formed(keyboard_transition(s, code, message, vk_code).0),
        well_formed(mouse_transition(s, code, message).0),
        well_formed(armed(s, target_window)),
{
}

/// The bit fields of `KEYUP_LPARAM`: repeat count 1 (bits 0-15), scan code 0
/// (bits 16-23), not extended (bit 24), no context code (bit 29), previous
/// state down (bit 30), transition up (bit 31).
pub proof fn keyup_lparam_fields()
    ensures
        KEYUP_LPARAM & 0xFFFF == 1,
        (KEYUP_LPARAM >> 16u32) & 0xFF == 0,
        (KEYUP_LPARAM >> 24u32) & 1 == 0,
        (KEYUP_LPARAM >> 29u32) & 1 == 0,
        (KEYUP_LPARAM >> 30u32) & 1 == 1,
        (KEYUP_LPARAM >> 31u32) & 1 == 1,
{
    assert(0xC000_0001u32 & 0xFFFF == 1) by (bit_vector);
    assert((0xC000_0001u32 >> 16u32) & 0xFF == 0) by (bit_vector);
    assert((0xC000_0001u32 >> 24u32) & 1 == 0) by (bit_vector);
    assert((0xC000_0001u32 >> 29u32) & 1 == 0) by (bit_vector);
    assert((0xC000_0001u32 >> 30u32) & 1 == 1) by (bit_vector);
    assert((0xC000_0001u32 >> 31u32) & 1 == 1) by (bit_vector);
}

} // verus!
