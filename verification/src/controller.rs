//! How the running instance reacts to a command, from its tray menu or from
//! the command line, and when its monitor hides the taskbar again.

use vstd::prelude::*;
use crate::appbar::{spec_enforced_state, TaskbarStateManager};
use crate::ipc::IpcMessage;

verus! {

/// What the running instance does after a command: write `appbar_state` as
/// the taskbar's AppBar state, show (or else hide) every Explorer taskbar,
/// and leave its event loop if `exit` is set.
#[derive(Clone, Copy, Debug, PartialEq, Eq, Structural)]
pub struct ControlAction {
    pub appbar_state: u32,
    pub show_taskbars: bool,
    pub exit: bool,
}

/// Showing the taskbar: the original AppBar state is put back and the
/// taskbars are shown.
pub open spec fn spec_show_action(original: u32, exit: bool) -> ControlAction {
    ControlAction { appbar_state: original, show_taskbars: true, exit }
}

/// Hiding the taskbar: auto-hide is enforced and the taskbars are hidden.
pub open spec fn spec_hide_action(original: u32) -> ControlAction {
    ControlAction {
        appbar_state: spec_enforced_state(original),
        show_taskbars: false,
        exit: false,
    }
}

/// The reaction to `cmd` while the taskbar is meant to be hidden (`hiding`)
/// or shown, with `original` the AppBar state found at start: whether the
/// taskbar is meant to be hidden afterwards, and what is done.
pub open spec fn spec_step(hiding: bool, original: u32, cmd: IpcMessage) -> (bool, ControlAction) {
    match cmd {
        IpcMessage::Show => (false, spec_show_action(original, false)),
        IpcMessage::Hide => (true, spec_hide_action(original)),
        IpcMessage::Toggle => if hiding {
            (false, spec_show_action(original, false))
        } else {
            (true, spec_hide_action(original))
        },
        IpcMessage::Quit => (false, spec_show_action(original, true)),
    }
}

/// The state of the running instance: the AppBar states it manages and
/// whether the taskbar is meant to be hidden.
pub struct TaskbarController {
    manager: TaskbarStateManager,
    hiding: bool,
}

impl TaskbarController {
    /// Whether the taskbar is meant to be hidden.
    pub closed spec fn spec_hiding(self) -> bool {
        self.hiding
    }

    /// The AppBar state found when the program started.
    pub closed spec fn spec_original(self) -> u32 {
        self.manager.original()
    }

    /// Starts controlling the taskbar with `manager`: the taskbar is to be
    /// hidden, so auto-hide is enforced and the taskbars are hidden.
    pub fn new(manager: TaskbarStateManager) -> (r: (Self, ControlAction))
        ensures
            r.0.spec_hiding(),
            r.0.spec_original() == manager.original(),
            r.1 == spec_hide_action(manager.original()),
    {
        let appbar_state = manager.enforce();
        let action = ControlAction { appbar_state, show_taskbars: false, exit: false };
        (TaskbarController { manager, hiding: true }, action)
    }

    /// Reacts to a command and returns what to do.
    pub fn handle(&mut self, cmd: IpcMessage) -> (a: ControlAction)
        ensures
            final(self).spec_original() == old(self).spec_original(),
            (final(self).spec_hiding(), a) == spec_step(
                old(self).spec_hiding(),
                old(self).spec_original(),
                cmd,
            ),
    {
        let hide = match cmd {
            IpcMessage::Show => false,
            IpcMessage::Hide => true,
            IpcMessage::Toggle => !self.hiding,
            IpcMessage::Quit => false,
        };
        let exit = match cmd {
            IpcMessage::Quit => true,
            _ => false,
        };
        self.hiding = hide;
        if hide {
            ControlAction { appbar_state: self.manager.enforce(), show_taskbars: false, exit }
        } else {
            ControlAction { appbar_state: self.manager.restore(), show_taskbars: true, exit }
        }
    }

    /// Whether the taskbar is meant to be hidden.
    pub fn is_hiding(&self) -> (r: bool)
        ensures
            r == self.spec_hiding(),
    {
        self.hiding
    }

    /// The AppBar states that this controller writes.
    pub fn manager(&self) -> (m: &TaskbarStateManager)
        ensures
            m.original() == self.spec_original(),
    {
        &self.manager
    }
}

/// Whether the monitor, on one of its rounds, hides the taskbars again: only
/// while they are meant to be hidden, and only if one of them shows.
pub fn needs_rehide(hiding: bool, any_visible: bool) -> (r: bool)
    ensures
        r == (hiding && any_visible),
{
    hiding && any_visible
}

/// After every command, what is written and shown agrees with whether the
/// taskbar is meant to be hidden: the enforced state and hidden taskbars
/// while hiding, the original state and shown taskbars otherwise.
pub proof fn lemma_action_agrees_with_state(hiding: bool, original: u32, cmd: IpcMessage)
    ensures
        ({
            let (next, a) = spec_step(hiding, original, cmd);
            &&& a.appbar_state == (if next {
                spec_enforced_state(original)
            } else {
                original
            })
            &&& a.show_taskbars == !next
        }),
{
}

/// Toggling twice brings back whether the taskbar is meant to be hidden, and
/// the second toggle does what a show or a hide would bring back.
pub proof fn lemma_toggle_twice(hiding: bool, original: u32)
    ensures
        spec_step(spec_step(hiding, original, IpcMessage::Toggle).0, original, IpcMessage::Toggle).0
            == hiding,
        spec_step(spec_step(hiding, original, IpcMessage::Toggle).0, original, IpcMessage::Toggle)
            == spec_step(
            hiding,
            original,
            if hiding {
                IpcMessage::Hide
            } else {
                IpcMessage::Show
            },
        ),
{
}

/// Toggling shows a hidden taskbar and hides a shown one.
pub proof fn lemma_toggle_flips(hiding: bool, original: u32)
    ensures
        spec_step(hiding, original, IpcMessage::Toggle) == spec_step(
            hiding,
            original,
            if hiding {
                IpcMessage::Show
            } else {
                IpcMessage::Hide
            },
        ),
        spec_step(hiding, original, IpcMessage::Toggle).0 == !hiding,
{
}

/// Show, hide and quit do the same whatever the state before, so doing one
/// of them twice is the same as doing it once.
pub proof fn lemma_absolute_commands(hiding: bool, other: bool, original: u32, cmd: IpcMessage)
    requires
        cmd != IpcMessage::Toggle,
    ensures
        spec_step(hiding, original, cmd) == spec_step(other, original, cmd),
        spec_step(spec_step(hiding, original, cmd).0, original, cmd) == spec_step(
            hiding,
            original,
            cmd,
        ),
{
}

/// Only quitting leaves the event loop, and quitting leaves the taskbar
/// shown with its original AppBar state.
pub proof fn lemma_quit_restores(hiding: bool, original: u32, cmd: IpcMessage)
    ensures
        spec_step(hiding, original, cmd).1.exit <==> cmd == IpcMessage::Quit,
        cmd == IpcMessage::Quit ==> spec_step(hiding, original, cmd) == (
            false,
            spec_show_action(original, true),
        ),
{
}

} // verus!
