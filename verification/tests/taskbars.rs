use thide::taskbars::{any_visible, class_name, process_name_from_buffer, show_command, TaskbarScan, TrayClass};

#[test]
fn class_names() {
    assert_eq!(class_name(TrayClass::Primary), "Shell_TrayWnd");
    assert_eq!(class_name(TrayClass::Secondary), "Shell_SecondaryTrayWnd");
}

#[test]
fn scan_takes_one_primary_and_all_secondary_explorer_windows() {
    let mut scan = TaskbarScan::new();
    assert_eq!(scan.current_class(), Some(TrayClass::Primary));
    assert!(!scan.on_window(&Some("yasb.exe".to_string())));
    assert_eq!(scan.current_class(), Some(TrayClass::Primary));
    assert!(!scan.on_window(&None));
    assert!(scan.on_window(&Some("Explorer.EXE".to_string())));
    assert_eq!(scan.current_class(), Some(TrayClass::Secondary));
    assert!(scan.on_window(&Some("explorer.exe".to_string())));
    assert_eq!(scan.current_class(), Some(TrayClass::Secondary));
    assert!(!scan.on_window(&Some("explorer.exe.bak".to_string())));
    assert!(scan.on_window(&Some("EXPLORER.EXE".to_string())));
    scan.on_class_exhausted();
    assert_eq!(scan.current_class(), None);
}

#[test]
fn scan_moves_on_when_a_class_has_no_window() {
    let mut scan = TaskbarScan::new();
    scan.on_class_exhausted();
    assert_eq!(scan.current_class(), Some(TrayClass::Secondary));
    scan.on_class_exhausted();
    assert_eq!(scan.current_class(), None);
    scan.on_class_exhausted();
    assert_eq!(scan.current_class(), None);
}

#[test]
fn visibility() {
    assert!(!any_visible(&[]));
    assert!(!any_visible(&[false, false]));
    assert!(any_visible(&[false, true]));
    assert!(any_visible(&[true]));
}

#[test]
fn show_commands() {
    assert_eq!(show_command(true), 5);
    assert_eq!(show_command(false), 0);
}

#[test]
fn process_names() {
    let mut buffer = [0u16; 512];
    let name: Vec<u16> = "explorer.exe".encode_utf16().collect();
    buffer[..name.len()].copy_from_slice(&name);
    assert_eq!(process_name_from_buffer(&buffer, name.len() as u32), Some("explorer.exe".to_string()));
    assert_eq!(process_name_from_buffer(&buffer, 8), Some("explorer".to_string()));
    assert_eq!(process_name_from_buffer(&buffer, 0), None);
    let bad = [0xD800u16, 0x41];
    assert_eq!(process_name_from_buffer(&bad, 2), Some("\u{FFFD}A".to_string()));
    let lone_low = [0x41u16, 0xDC00, 0xD83D];
    let decoded = process_name_from_buffer(&lone_low, 3).unwrap();
    assert_eq!(decoded, "A\u{FFFD}\u{FFFD}");
    assert_eq!(decoded.encode_utf16().count(), 3);
}
