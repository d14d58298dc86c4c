use thide::cli::autostart_value;
use thide::text::{eq_ignore_ascii_case, same_text, utf16_units_with_nul};

#[test]
fn ascii_case_insensitive_match() {
    assert!(eq_ignore_ascii_case("Explorer.EXE", "explorer.exe"));
    assert!(eq_ignore_ascii_case("", ""));
    assert!(!eq_ignore_ascii_case("explorer.ex", "explorer.exe"));
    assert!(!eq_ignore_ascii_case("explorer_exe", "explorer.exe"));
    assert!(!eq_ignore_ascii_case("É", "é"));
    assert!(eq_ignore_ascii_case("[@`{", "[@`{"));
    assert!(!eq_ignore_ascii_case("@", "`"));
}

#[test]
fn same_text_is_equality() {
    assert!(same_text("show", "show"));
    assert!(!same_text("show", "Show"));
    assert!(!same_text("show", "shows"));
}

#[test]
fn utf16_units_end_with_zero() {
    assert_eq!(utf16_units_with_nul(""), vec![0]);
    assert_eq!(utf16_units_with_nul("Ab"), vec![0x41, 0x62, 0]);
    assert_eq!(utf16_units_with_nul("é€😀"), vec![0xE9, 0x20AC, 0xD83D, 0xDE00, 0]);
    let expected: Vec<u16> = "C:\\Tools\\thide.exe".encode_utf16().chain(std::iter::once(0)).collect();
    assert_eq!(utf16_units_with_nul("C:\\Tools\\thide.exe"), expected);
}

#[test]
fn autostart_value_is_little_endian_utf16() {
    assert_eq!(autostart_value("C:"), vec![0x43, 0, 0x3A, 0, 0, 0]);
    assert_eq!(autostart_value("€"), vec![0xAC, 0x20, 0, 0]);
    assert_eq!(autostart_value("😀"), vec![0x3D, 0xD8, 0x00, 0xDE, 0, 0]);
}

#[test]
fn utf16_round_trip_through_process_names() {
    let text = "explörer😀.exe";
    let units = utf16_units_with_nul(text);
    let name = thide::taskbars::process_name_from_buffer(&units, (units.len() - 1) as u32);
    assert_eq!(name, Some(text.to_string()));
    assert_eq!(name.unwrap().encode_utf16().count(), units.len() - 1);
}
