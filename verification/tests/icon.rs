use thide::icon::{areas_fit, decodable_size, largest_entry, load_icon_file, IconError};

fn image(width: u32, height: u32, shade: u8) -> ico::IconImage {
    let mut rgba = Vec::new();
    for _ in 0..width * height {
        rgba.extend_from_slice(&[shade, 0, 0, 255]);
    }
    ico::IconImage::from_rgba_data(width, height, rgba)
}

fn ico_file(images: &[(u32, u32, u8)]) -> Vec<u8> {
    let mut dir = ico::IconDir::new(ico::ResourceType::Icon);
    for &(w, h, shade) in images {
        dir.add_entry(ico::IconDirEntry::encode(&image(w, h, shade)).unwrap());
    }
    let mut bytes = Vec::new();
    dir.write(&mut bytes).unwrap();
    bytes
}

#[test]
fn largest_is_last_of_equal_areas() {
    assert_eq!(largest_entry(&[]), None);
    assert_eq!(largest_entry(&[(16, 16)]), Some(0));
    assert_eq!(largest_entry(&[(16, 16), (32, 32), (32, 32), (8, 8)]), Some(2));
    assert_eq!(largest_entry(&[(64, 16), (32, 32)]), Some(1));
    assert_eq!(largest_entry(&[(48, 48), (16, 16)]), Some(0));
}

#[test]
fn area_bound() {
    assert!(areas_fit(&[(65536, 65535), (1, 1)]));
    assert!(!areas_fit(&[(1, 1), (65536, 65536)]));
}

#[test]
fn loads_the_largest_image() {
    let file = ico_file(&[(16, 16, 10), (32, 32, 20), (24, 24, 30)]);
    let icon = load_icon_file(&file).unwrap();
    assert_eq!((icon.width, icon.height), (32, 32));
    assert_eq!(icon.rgba.len(), 32 * 32 * 4);
    assert_eq!(&icon.rgba[..4], &[20, 0, 0, 255]);
}

#[test]
fn ties_go_to_the_later_image() {
    let file = ico_file(&[(32, 32, 1), (32, 32, 2)]);
    let icon = load_icon_file(&file).unwrap();
    assert_eq!(&icon.rgba[..4], &[2, 0, 0, 255]);
}

#[test]
fn empty_directory_has_no_entries() {
    let file = ico_file(&[]);
    assert!(matches!(load_icon_file(&file), Err(IconError::NoEntries)));
}

#[test]
fn garbage_is_a_read_error() {
    assert!(matches!(load_icon_file(&[1, 2, 3]), Err(IconError::Read(_))));
    assert!(matches!(load_icon_file(&[]), Err(IconError::Read(_))));
}

#[test]
fn broken_image_data_is_a_decode_error() {
    let mut file = ico_file(&[(16, 16, 7)]);
    let offset = u32::from_le_bytes([file[18], file[19], file[20], file[21]]) as usize;
    for b in &mut file[offset..offset + 8] {
        *b = 0xEE;
    }
    assert!(matches!(load_icon_file(&file), Err(IconError::Decode(_))));
}

#[test]
fn decodable_sizes() {
    assert!(decodable_size(256, 256));
    assert!(decodable_size(0x7ff_ffff, 1));
    assert!(!decodable_size(0x800_0000, 1));
    assert!(decodable_size(1, 0x4000_0000));
    assert!(!decodable_size(1, 0x4000_0001));
    assert!(decodable_size(30000, 30000));
    assert!(!decodable_size(65535, 65535));
    assert!(!decodable_size(65536, 65536));
    assert!(decodable_size(5, 0));
}

/// An ICO file whose one image is a BMP header declaring `width` x `height`
/// pixels at 32 bits each, with no pixel data.
fn bmp_header_only(width: i32, height: i32) -> Vec<u8> {
    let mut f = Vec::new();
    f.extend_from_slice(&[0, 0, 1, 0, 1, 0]);
    f.extend_from_slice(&[0, 0, 0, 0, 1, 0, 32, 0]);
    f.extend_from_slice(&40u32.to_le_bytes());
    f.extend_from_slice(&22u32.to_le_bytes());
    f.extend_from_slice(&40u32.to_le_bytes());
    f.extend_from_slice(&width.to_le_bytes());
    f.extend_from_slice(&(2 * height).to_le_bytes());
    f.extend_from_slice(&1u16.to_le_bytes());
    f.extend_from_slice(&32u16.to_le_bytes());
    f.extend_from_slice(&[0u8; 24]);
    f
}

#[test]
fn oversized_image_is_refused_before_decoding() {
    let file = bmp_header_only(1 << 27, 1);
    assert!(matches!(load_icon_file(&file), Err(IconError::ImageTooLarge)));
}

#[test]
fn truncated_bmp_is_a_decode_error() {
    let file = bmp_header_only(4, 4);
    assert!(matches!(load_icon_file(&file), Err(IconError::Decode(_))));
}

#[test]
fn large_truncated_bmp_is_a_decode_error() {
    let file = bmp_header_only(2000, 2000);
    assert!(matches!(load_icon_file(&file), Err(IconError::Decode(_))));
}
