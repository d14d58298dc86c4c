//! The protocol between a command-line invocation and the running instance:
//! the class of the hidden message window that the instance listens on, and
//! the window messages that carry each command.

use vstd::prelude::*;
use crate::platform::WM_APP;

verus! {

/// A command that the running instance accepts, from the command line
/// (through a window message) or from its tray menu.
#[derive(Clone, Copy, Debug, PartialEq, Eq, Structural)]
pub enum IpcMessage {
    Show,
    Hide,
    Toggle,
    Quit,
}

/// The window message that carries each command: `WM_APP + 1` for show,
/// `+ 2` for hide, `+ 3` for quit and `+ 4` for toggle.
pub open spec fn spec_message_id(m: IpcMessage) -> u32 {
    match m {
        IpcMessage::Show => (WM_APP + 1) as u32,
        IpcMessage::Hide => (WM_APP + 2) as u32,
        IpcMessage::Quit => (WM_APP + 3) as u32,
        IpcMessage::Toggle => (WM_APP + 4) as u32,
    }
}

/// The command that a window message stands for, if any.
pub open spec fn spec_decode_message(msg: u32) -> Option<IpcMessage> {
    if msg == spec_message_id(IpcMessage::Show) {
        Some(IpcMessage::Show)
    } else if msg == spec_message_id(IpcMessage::Hide) {
        Some(IpcMessage::Hide)
    } else if msg == spec_message_id(IpcMessage::Toggle) {
        Some(IpcMessage::Toggle)
    } else if msg == spec_message_id(IpcMessage::Quit) {
        Some(IpcMessage::Quit)
    } else {
        None
    }
}

/// The name of the class of the hidden window that the running instance
/// receives commands on.
pub open spec fn spec_ipc_window_class() -> Seq<char> {
    seq!['T', 'H', 'i', 'd', 'e', 'I', 'P', 'C', 'W', 'i', 'n', 'd', 'o', 'w']
}

/// Returns the window class name that the running instance registers and a
/// command-line invocation looks for: `"THideIPCWindow"`.
pub fn get_ipc_window_class() -> (name: &'static str)
    ensures
        name@ == spec_ipc_window_class(),
{
    let name = "THideIPCWindow";
    proof {
        reveal_strlit("THideIPCWindow");
    }
    name
}

/// Returns the message numbers of show, hide, toggle and quit, in that order.
pub fn get_message_ids() -> (ids: (u32, u32, u32, u32))
    ensures
        ids == (
            spec_message_id(IpcMessage::Show),
            spec_message_id(IpcMessage::Hide),
            spec_message_id(IpcMessage::Toggle),
            spec_message_id(IpcMessage::Quit),
        ),
{
    (WM_APP + 1, WM_APP + 2, WM_APP + 4, WM_APP + 3)
}

/// Returns the window message that carries `m`.
pub fn message_id(m: IpcMessage) -> (id: u32)
    ensures
        id == spec_message_id(m),
{
    let (show_id, hide_id, toggle_id, quit_id) = get_message_ids();
    match m {
        IpcMessage::Show => show_id,
        IpcMessage::Hide => hide_id,
        IpcMessage::Toggle => toggle_id,
        IpcMessage::Quit => quit_id,
    }
}

/// Tells which command a window message received by the hidden window
/// carries; `None` for any other message, which the window hands on to the
/// default window procedure.
pub fn decode_ipc_message(msg: u32) -> (r: Option<IpcMessage>)
    ensures
        r == spec_decode_message(msg),
{
    let (show_id, hide_id, toggle_id, quit_id) = get_message_ids();
    if msg == show_id {
        Some(IpcMessage::Show)
    } else if msg == hide_id {
        Some(IpcMessage::Hide)
    } else if msg == toggle_id {
        Some(IpcMessage::Toggle)
    } else if msg == quit_id {
        Some(IpcMessage::Quit)
    } else {
        None
    }
}

/// A message sent for a command is received as that same command, and only
/// the message of a command is received as that command.
pub proof fn lemma_message_round_trip(m: IpcMessage, msg: u32)
    ensures
        spec_decode_message(spec_message_id(m)) == Some(m),
        spec_decode_message(msg) == Some(m) ==> msg == spec_message_id(m),
{
}

/// Distinct commands travel in distinct messages.
pub proof fn lemma_message_ids_distinct(a: IpcMessage, b: IpcMessage)
    ensures
        spec_message_id(a) == spec_message_id(b) ==> a == b,
{
}

} // verus!
