use ime_shift_fix::hook::{
    keyup_input, keyup_messages, message_loop_step, suppression_notice, HookState, KeyboardAction,
    KeyupTarget, LoopStep, MouseAction, KEYUP_LPARAM,
};
use ime_shift_fix::win32::{
    KEYEVENTF_KEYUP, VK_LSHIFT, VK_RSHIFT, WM_KEYDOWN, WM_KEYUP, WM_LBUTTONDOWN, WM_MOUSEHWHEEL,
    WM_MOUSEWHEEL, WM_SYSKEYUP,
};

const WM_MOUSEMOVE: u32 = 0x0200;
const WM_LBUTTONUP: u32 = 0x0202;
const WM_SYSKEYDOWN: u32 = 0x0104;
const VK_A: u32 = 0x41;

fn shift_click(state: &mut HookState, window: isize) {
    assert_eq!(state.on_keyboard(0, WM_KEYDOWN, VK_LSHIFT), KeyboardAction::PassThrough);
    assert_eq!(state.on_mouse(0, WM_LBUTTONDOWN), MouseAction::ArmGuard);
    state.arm_guard(window);
}

#[test]
fn new_state_is_idle() {
    let s = HookState::new();
    assert_eq!(s, HookState { shift_down: false, guard_armed: false, target_window: 0, suppress_count: 0 });
}

#[test]
fn shift_click_release_is_replaced() {
    let mut s = HookState::new();
    shift_click(&mut s, 0x1234);
    assert!(s.guard_armed);
    assert_eq!(s.target_window, 0x1234);
    let action = s.on_keyboard(0, WM_KEYUP, VK_LSHIFT);
    assert_eq!(
        action,
        KeyboardAction::Suppress { target: KeyupTarget::Window(0x1234), vk_code: VK_LSHIFT, notice_count: 0 }
    );
    assert_eq!(s, HookState { shift_down: false, guard_armed: false, target_window: 0, suppress_count: 1 });
}

#[test]
fn one_selection_replaces_one_release() {
    let mut s = HookState::new();
    shift_click(&mut s, 7);
    assert!(matches!(s.on_keyboard(0, WM_KEYUP, VK_LSHIFT), KeyboardAction::Suppress { .. }));
    assert_eq!(s.on_keyboard(0, WM_KEYDOWN, VK_LSHIFT), KeyboardAction::PassThrough);
    assert_eq!(s.on_keyboard(0, WM_KEYUP, VK_LSHIFT), KeyboardAction::PassThrough);
    assert_eq!(s.suppress_count, 1);
}

#[test]
fn sys_key_release_and_other_shift_are_replaced() {
    let mut s = HookState::new();
    shift_click(&mut s, 9);
    let action = s.on_keyboard(0, WM_SYSKEYUP, VK_RSHIFT);
    assert_eq!(
        action,
        KeyboardAction::Suppress { target: KeyupTarget::Window(9), vk_code: VK_RSHIFT, notice_count: 0 }
    );
}

#[test]
fn release_without_recorded_window_goes_to_foreground() {
    let mut s = HookState::new();
    shift_click(&mut s, 0);
    assert_eq!(
        s.on_keyboard(0, WM_KEYUP, VK_RSHIFT),
        KeyboardAction::Suppress { target: KeyupTarget::Foreground, vk_code: VK_RSHIFT, notice_count: 0 }
    );
}

#[test]
fn guard_survives_moves_and_other_keys() {
    let mut s = HookState::new();
    shift_click(&mut s, 5);
    assert_eq!(s.on_mouse(0, WM_MOUSEMOVE), MouseAction::PassThrough);
    assert_eq!(s.on_mouse(0, WM_LBUTTONUP), MouseAction::PassThrough);
    assert_eq!(s.on_keyboard(0, WM_KEYDOWN, VK_A), KeyboardAction::PassThrough);
    assert_eq!(s.on_keyboard(0, WM_KEYUP, VK_A), KeyboardAction::PassThrough);
    assert!(s.guard_armed);
    assert!(matches!(s.on_keyboard(0, WM_KEYUP, VK_LSHIFT), KeyboardAction::Suppress { .. }));
}

#[test]
fn wheel_cancels_guard() {
    for wheel in [WM_MOUSEWHEEL, WM_MOUSEHWHEEL] {
        let mut s = HookState::new();
        shift_click(&mut s, 5);
        assert_eq!(s.on_mouse(0, wheel), MouseAction::PassThrough);
        assert!(!s.guard_armed);
        assert_eq!(s.target_window, 0);
        assert!(s.shift_down);
        assert_eq!(s.on_keyboard(0, WM_KEYUP, VK_LSHIFT), KeyboardAction::PassThrough);
    }
}

#[test]
fn click_without_shift_does_not_arm() {
    let mut s = HookState::new();
    assert_eq!(s.on_mouse(0, WM_LBUTTONDOWN), MouseAction::PassThrough);
    assert!(!s.guard_armed);
    assert_eq!(s.on_keyboard(0, WM_KEYUP, VK_LSHIFT), KeyboardAction::PassThrough);
}

#[test]
fn negative_codes_are_ignored() {
    let mut s = HookState::new();
    assert_eq!(s.on_keyboard(-1, WM_KEYDOWN, VK_LSHIFT), KeyboardAction::PassThrough);
    assert!(!s.shift_down);
    shift_click(&mut s, 3);
    let before = s;
    assert_eq!(s.on_keyboard(-1, WM_KEYUP, VK_LSHIFT), KeyboardAction::PassThrough);
    assert_eq!(s.on_mouse(-1, WM_MOUSEWHEEL), MouseAction::PassThrough);
    assert_eq!(s, before);
}

#[test]
fn sys_key_down_does_not_mark_shift() {
    let mut s = HookState::new();
    assert_eq!(s.on_keyboard(0, WM_SYSKEYDOWN, VK_LSHIFT), KeyboardAction::PassThrough);
    assert!(!s.shift_down);
    assert_eq!(s.on_mouse(0, WM_LBUTTONDOWN), MouseAction::PassThrough);
}

#[test]
fn counter_numbers_notices_and_wraps() {
    let mut s = HookState::new();
    for n in 0..3u64 {
        shift_click(&mut s, 1);
        assert_eq!(
            s.on_keyboard(0, WM_KEYUP, VK_LSHIFT),
            KeyboardAction::Suppress { target: KeyupTarget::Window(1), vk_code: VK_LSHIFT, notice_count: n }
        );
    }
    s.suppress_count = u64::MAX;
    shift_click(&mut s, 1);
    assert!(matches!(
        s.on_keyboard(0, WM_KEYUP, VK_LSHIFT),
        KeyboardAction::Suppress { notice_count: u64::MAX, .. }
    ));
    assert_eq!(s.suppress_count, 0);
}

#[test]
fn notice_texts() {
    assert_eq!(suppression_notice(0), "[Shift+Click] Selection IME mode protected\n");
    assert_eq!(suppression_notice(3), "\x1b[1A\r[Shift+Click] Selection IME mode protected (+3)\n");
    assert_eq!(suppression_notice(1056), "\x1b[1A\r[Shift+Click] Selection IME mode protected (+1056)\n");
}

#[test]
fn replacement_messages_and_input() {
    assert_eq!(keyup_messages(0), Vec::<u32>::new());
    assert_eq!(keyup_messages(0x55), vec![WM_KEYUP, WM_SYSKEYUP]);
    assert_eq!(keyup_messages(-1), vec![WM_KEYUP, WM_SYSKEYUP]);
    let input = keyup_input(VK_RSHIFT);
    assert_eq!(input.virtual_key, 0xA1);
    assert_eq!(input.flags, KEYEVENTF_KEYUP);
    assert_eq!((input.scan_code, input.time, input.extra_info), (0, 0, 0));
    assert_eq!(keyup_input(0x0001_00A0).virtual_key, 0xA0);
}

#[test]
fn keyup_lparam_value() {
    assert_eq!(KEYUP_LPARAM, 0xC000_0001);
    assert_eq!(KEYUP_LPARAM & 0xFFFF, 1);
    assert_eq!(KEYUP_LPARAM >> 30, 0b11);
}

#[test]
fn message_loop_steps() {
    assert_eq!(message_loop_step(-1), LoopStep::Fail);
    assert_eq!(message_loop_step(0), LoopStep::Quit);
    assert_eq!(message_loop_step(1), LoopStep::Dispatch);
    assert_eq!(message_loop_step(-2), LoopStep::Dispatch);
}

#[test]
fn replaced_release_then_no_click_passes_every_release() {
    let mut s = HookState::new();
    shift_click(&mut s, 8);
    assert!(matches!(s.on_keyboard(0, WM_SYSKEYUP, VK_RSHIFT), KeyboardAction::Suppress { .. }));
    assert_eq!(s.on_mouse(0, WM_MOUSEMOVE), MouseAction::PassThrough);
    assert_eq!(s.on_keyboard(0, WM_KEYDOWN, VK_RSHIFT), KeyboardAction::PassThrough);
    assert_eq!(s.on_mouse(0, WM_LBUTTONUP), MouseAction::PassThrough);
    assert_eq!(s.on_keyboard(0, WM_KEYUP, VK_RSHIFT), KeyboardAction::PassThrough);
    assert_eq!(s.suppress_count, 1);
}
