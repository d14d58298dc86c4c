use thide::ipc::{decode_ipc_message, get_ipc_window_class, get_message_ids, message_id, IpcMessage};

#[test]
fn window_class_name() {
    assert_eq!(get_ipc_window_class(), "THideIPCWindow");
}

#[test]
fn message_ids_follow_wm_app() {
    assert_eq!(get_message_ids(), (0x8001, 0x8002, 0x8004, 0x8003));
}

#[test]
fn every_command_round_trips() {
    for m in [IpcMessage::Show, IpcMessage::Hide, IpcMessage::Toggle, IpcMessage::Quit] {
        assert_eq!(decode_ipc_message(message_id(m)), Some(m));
    }
}

#[test]
fn other_messages_are_not_commands() {
    assert_eq!(decode_ipc_message(0x8000), None);
    assert_eq!(decode_ipc_message(0x8005), None);
    assert_eq!(decode_ipc_message(0x0010), None);
    assert_eq!(decode_ipc_message(u32::MAX), None);
}
