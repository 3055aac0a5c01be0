use base64::Engine;
use icns::{Encoding, IconFamily, IconType, Image, PixelFormat};
use launcher_catalog::apps::{get_app_icon_base64, AppReference};
use launcher_catalog::icon::{
    convert_icns_to_base64, extract_icon, icon_path_to_base64, is_png_coded, png_header_is_safe,
    select_icon_code, ExtractionError,
    ICON_128_RGB, ICON_32_RGB, ICON_48_RGB, ICON_64_RGBA,
};

fn filled_image(format: PixelFormat, side: u32, value: u8) -> Image {
    let mut image = Image::new(format, side, side);
    for b in image.data_mut().iter_mut() {
        *b = value;
    }
    image
}

fn container(parts: &[(IconType, Image)]) -> (Vec<u8>, IconFamily) {
    let mut family = IconFamily::new();
    for (t, image) in parts {
        family.add_icon_with_type(image, *t).unwrap();
    }
    let mut bytes = Vec::new();
    family.write(&mut bytes).unwrap();
    (bytes, family)
}

fn expected_payload(family: &IconFamily, t: IconType) -> String {
    let image = family.get_icon_with_type(t).unwrap();
    let mut png = Vec::new();
    image.write_png(&mut png).unwrap();
    base64::engine::general_purpose::STANDARD.encode(&png)
}

#[test]
fn prefers_64_over_128() {
    let (bytes, family) = container(&[
        (IconType::RGB24_128x128, filled_image(PixelFormat::RGBA, 128, 200)),
        (IconType::RGBA32_64x64, filled_image(PixelFormat::RGBA, 64, 17)),
    ]);
    let payload = convert_icns_to_base64(&bytes).unwrap();
    assert_eq!(payload, expected_payload(&family, IconType::RGBA32_64x64));
    assert_ne!(payload, expected_payload(&family, IconType::RGB24_128x128));
}

#[test]
fn payload_is_base64_png() {
    let (bytes, _) = container(&[(IconType::RGBA32_64x64, filled_image(PixelFormat::RGBA, 64, 3))]);
    let payload = convert_icns_to_base64(&bytes).unwrap();
    let png = base64::engine::general_purpose::STANDARD.decode(payload.as_bytes()).unwrap();
    assert_eq!(&png[..8], &[0x89, b'P', b'N', b'G', 0x0d, 0x0a, 0x1a, 0x0a]);
}

#[test]
fn extraction_is_deterministic() {
    let (bytes, _) = container(&[
        (IconType::RGB24_32x32, filled_image(PixelFormat::RGBA, 32, 90)),
        (IconType::RGBA32_16x16, filled_image(PixelFormat::RGBA, 16, 5)),
    ]);
    let first = convert_icns_to_base64(&bytes).unwrap();
    let second = convert_icns_to_base64(&bytes).unwrap();
    assert_eq!(first, second);
    assert_eq!(icon_path_to_base64(Some(&bytes)), Some(first));
}

#[test]
fn falls_back_to_first_unlisted_type() {
    let (bytes, family) = container(&[(IconType::RGBA32_16x16, filled_image(PixelFormat::RGBA, 16, 77))]);
    let payload = icon_path_to_base64(Some(&bytes));
    assert_eq!(payload, Some(expected_payload(&family, IconType::RGBA32_16x16)));
}

#[test]
fn empty_container_gives_absent_payload() {
    let bytes: Vec<u8> = vec![b'i', b'c', b'n', b's', 0, 0, 0, 8];
    assert_eq!(convert_icns_to_base64(&bytes), Err(ExtractionError::Empty));
    assert_eq!(icon_path_to_base64(Some(&bytes)), None);
    let app = AppReference::new(
        "Empty".to_string(),
        Some("/Applications/Empty.app/Icon.icns".to_string()),
        "/Applications/Empty.app".to_string(),
        None,
    );
    let app = app.with_icon_base64(Some(&bytes));
    assert_eq!(app.icon_base64, None);
}

#[test]
fn malformed_and_unreadable_containers() {
    assert_eq!(convert_icns_to_base64(b"icn"), Err(ExtractionError::Malformed));
    assert_eq!(convert_icns_to_base64(b"abcd\0\0\0\x08"), Err(ExtractionError::Malformed));
    assert_eq!(extract_icon(Some(b"not an icon file")), Err(ExtractionError::Malformed));
    assert_eq!(extract_icon(None), Err(ExtractionError::Unreadable));
    assert_eq!(icon_path_to_base64(None), None);
}

#[test]
fn selection_order() {
    assert_eq!(select_icon_code(&vec![ICON_128_RGB, ICON_64_RGBA]), Some(ICON_64_RGBA));
    assert_eq!(select_icon_code(&vec![ICON_48_RGB, ICON_32_RGB, ICON_128_RGB]), Some(ICON_128_RGB));
    assert_eq!(select_icon_code(&vec![ICON_48_RGB, ICON_32_RGB]), Some(ICON_32_RGB));
    assert_eq!(select_icon_code(&vec![7, ICON_48_RGB]), Some(ICON_48_RGB));
    assert_eq!(select_icon_code(&vec![7, 9]), Some(7));
    assert_eq!(select_icon_code(&vec![]), None);
    assert_eq!(ICON_64_RGBA, u32::from_be_bytes(*b"icp6"));
    assert_eq!(ICON_128_RGB, u32::from_be_bytes(*b"it32"));
    assert_eq!(ICON_32_RGB, u32::from_be_bytes(*b"il32"));
    assert_eq!(ICON_48_RGB, u32::from_be_bytes(*b"ih32"));
}

#[test]
fn record_without_icon_path_has_no_payload() {
    let (bytes, _) = container(&[(IconType::RGBA32_64x64, filled_image(PixelFormat::RGBA, 64, 1))]);
    let app = AppReference::new("NoIcon".to_string(), None, "/Applications/NoIcon.app".to_string(), None);
    assert_eq!(app.get_icon_base64(Some(&bytes)), None);
    assert_eq!(get_app_icon_base64(&app, Some(&bytes)), None);
    let with_icon = AppReference::new(
        "Icon".to_string(),
        Some("/Applications/Icon.app/Icon.icns".to_string()),
        "/Applications/Icon.app".to_string(),
        Some("/Applications/Icon.app/Contents/MacOS/Icon".to_string()),
    );
    let expected = convert_icns_to_base64(&bytes).ok();
    assert!(expected.is_some());
    assert_eq!(get_app_icon_base64(&with_icon, Some(&bytes)), expected);
    let resolved = with_icon.with_icon_base64(Some(&bytes));
    assert_eq!(resolved.icon_base64, expected);
    assert_eq!(resolved.name, "Icon");
}

fn code_of(t: IconType) -> u32 {
    u32::from_be_bytes(t.ostype().0)
}

#[test]
fn preferred_codes_match_icon_types() {
    assert_eq!(ICON_64_RGBA, code_of(IconType::from_pixel_size(64, 64).unwrap()));
    assert_eq!(ICON_128_RGB, code_of(IconType::from_pixel_size(128, 128).unwrap()));
    assert_eq!(ICON_32_RGB, code_of(IconType::from_pixel_size(32, 32).unwrap()));
    assert_eq!(ICON_48_RGB, code_of(IconType::RGB24_48x48));
    assert_eq!(ICON_32_RGB, code_of(IconType::RGB24_32x32));
    assert_eq!(ICON_128_RGB, code_of(IconType::RGB24_128x128));
}

#[test]
fn png_coded_types_match_icns_encoding() {
    let all = [
        IconType::RGB24_16x16,
        IconType::Mask8_16x16,
        IconType::RGB24_32x32,
        IconType::Mask8_32x32,
        IconType::RGB24_48x48,
        IconType::Mask8_48x48,
        IconType::RGB24_128x128,
        IconType::Mask8_128x128,
        IconType::RGBA32_16x16,
        IconType::RGBA32_16x16_2x,
        IconType::RGBA32_32x32,
        IconType::RGBA32_32x32_2x,
        IconType::RGBA32_64x64,
        IconType::RGBA32_128x128,
        IconType::RGBA32_128x128_2x,
        IconType::RGBA32_256x256,
        IconType::RGBA32_256x256_2x,
        IconType::RGBA32_512x512,
        IconType::RGBA32_512x512_2x,
    ];
    for t in all {
        assert_eq!(is_png_coded(code_of(t)), t.encoding() == Encoding::JP2PNG, "{:?}", t);
    }
}

fn huge_png_container() -> Vec<u8> {
    let mut png: Vec<u8> = vec![0x89, b'P', b'N', b'G', 0x0d, 0x0a, 0x1a, 0x0a];
    png.extend_from_slice(&[0, 0, 0, 13]);
    png.extend_from_slice(b"IHDR");
    png.extend_from_slice(&[0, 1, 0, 0, 0, 1, 0, 0, 8, 6, 0, 0, 0]);
    png.extend_from_slice(&[0, 0, 0, 0]);
    let element_len = (8 + png.len()) as u32;
    let total_len = 8 + element_len;
    let mut bytes: Vec<u8> = b"icns".to_vec();
    bytes.extend_from_slice(&total_len.to_be_bytes());
    bytes.extend_from_slice(b"icp6");
    bytes.extend_from_slice(&element_len.to_be_bytes());
    bytes.extend_from_slice(&png);
    bytes
}

#[test]
fn oversized_png_header_is_malformed() {
    let bytes = huge_png_container();
    assert_eq!(convert_icns_to_base64(&bytes), Err(ExtractionError::Malformed));
    assert_eq!(icon_path_to_base64(Some(&bytes)), None);
}

#[test]
fn png_header_checks() {
    let (bytes, family) = container(&[(IconType::RGBA32_64x64, filled_image(PixelFormat::RGBA, 64, 9))]);
    assert!(!bytes.is_empty());
    assert!(png_header_is_safe(&family.elements[0].data));
    assert!(png_header_is_safe(&vec![1, 2, 3]));
    let mut huge = huge_png_container();
    let png = huge.split_off(16);
    assert!(!png_header_is_safe(&png));
    let png = family.elements[0].data.clone();
    let after_header = 8 + 12 + 13;
    let with_chunk = |kind: &[u8; 4], body: &[u8]| {
        let mut d = png[..after_header].to_vec();
        d.extend_from_slice(&(body.len() as u32).to_be_bytes());
        d.extend_from_slice(kind);
        d.extend_from_slice(body);
        d.extend_from_slice(&[0, 0, 0, 0]);
        d.extend_from_slice(&png[after_header..]);
        d
    };
    assert!(png_header_is_safe(&with_chunk(b"tEXt", b"Comment\0IHDR inside text")));
    assert!(!png_header_is_safe(&with_chunk(b"IHDR", &[0, 0, 0, 64, 0, 0, 0, 64, 8, 6, 0, 0, 0])));
    let mut trailing = png.clone();
    trailing.extend_from_slice(b"IHDR");
    assert!(png_header_is_safe(&trailing));
}

#[test]
fn truncated_element_is_malformed() {
    let (mut bytes, _) = container(&[(IconType::RGBA32_64x64, filled_image(PixelFormat::RGBA, 64, 2))]);
    bytes.truncate(bytes.len() - 10);
    assert_eq!(convert_icns_to_base64(&bytes), Err(ExtractionError::Malformed));
}
