use thide::appbar::TaskbarStateManager;
use thide::controller::{needs_rehide, ControlAction, TaskbarController};
use thide::instance::instance_is_unique;
use thide::ipc::IpcMessage;

const SHOWN: fn(u32) -> ControlAction = |s| ControlAction { appbar_state: s, show_taskbars: true, exit: false };
const HIDDEN: fn(u32) -> ControlAction = |s| ControlAction { appbar_state: s, show_taskbars: false, exit: false };

#[test]
fn manager_enforces_auto_hide() {
    let m = TaskbarStateManager::new(0x2);
    assert_eq!(m.original_state(), 0x2);
    assert_eq!(m.enforced_state(), 0x3);
    assert_eq!(m.enforce(), 0x3);
    assert_eq!(m.restore(), 0x2);
    assert_eq!(m.initial_write(), Some(0x3));
}

#[test]
fn manager_writes_nothing_when_auto_hide_is_on() {
    let m = TaskbarStateManager::new(0x3);
    assert_eq!(m.enforced_state(), 0x3);
    assert_eq!(m.initial_write(), None);
    assert_eq!(m.restore(), 0x3);
}

#[test]
fn enforcing_keeps_the_other_bits() {
    for original in [0u32, 1, 2, 0xfffe, 0xffff_ffff, 0x8000_0000] {
        let m = TaskbarStateManager::new(original);
        assert_eq!(m.enforce() & 1, 1);
        assert_eq!(m.enforce() & !1, original & !1);
        assert_eq!(TaskbarStateManager::new(m.enforce()).enforce(), m.enforce());
    }
}

#[test]
fn start_hides() {
    let (c, a) = TaskbarController::new(TaskbarStateManager::new(0));
    assert!(c.is_hiding());
    assert_eq!(a, HIDDEN(1));
}

#[test]
fn show_and_hide() {
    let (mut c, _) = TaskbarController::new(TaskbarStateManager::new(0x2));
    assert_eq!(c.handle(IpcMessage::Show), SHOWN(0x2));
    assert!(!c.is_hiding());
    assert_eq!(c.handle(IpcMessage::Show), SHOWN(0x2));
    assert_eq!(c.handle(IpcMessage::Hide), HIDDEN(0x3));
    assert!(c.is_hiding());
    assert_eq!(c.handle(IpcMessage::Hide), HIDDEN(0x3));
}

#[test]
fn toggle_twice_returns() {
    let (mut c, _) = TaskbarController::new(TaskbarStateManager::new(0));
    assert_eq!(c.handle(IpcMessage::Toggle), SHOWN(0));
    assert!(!c.is_hiding());
    assert_eq!(c.handle(IpcMessage::Toggle), HIDDEN(1));
    assert!(c.is_hiding());
}

#[test]
fn quit_restores_and_exits() {
    let (mut c, _) = TaskbarController::new(TaskbarStateManager::new(0x2));
    let a = c.handle(IpcMessage::Quit);
    assert_eq!(a, ControlAction { appbar_state: 0x2, show_taskbars: true, exit: true });
    assert!(!c.is_hiding());
    assert_eq!(c.manager().restore(), 0x2);
}

#[test]
fn monitor_rehides_only_while_hiding() {
    assert!(needs_rehide(true, true));
    assert!(!needs_rehide(true, false));
    assert!(!needs_rehide(false, true));
    assert!(!needs_rehide(false, false));
}

#[test]
fn second_instance_is_detected() {
    assert!(!instance_is_unique(183));
    assert!(instance_is_unique(0));
}
