use convert_screenshot::text::{
    adjust_extension, is_image_extension, is_image_file, parse_tuple, read_u32, trim,
};

#[test]
fn parse_tuple_reads_four_numbers() {
    assert_eq!(parse_tuple("10,20,31,42"), Ok([10, 20, 31, 42]));
    assert_eq!(parse_tuple(" 1 , 2,3 ,\t4 "), Ok([1, 2, 3, 4]));
    assert_eq!(parse_tuple("+5,0,4294967295,7"), Ok([5, 0, 4294967295, 7]));
}

#[test]
fn parse_tuple_wrong_count() {
    let msg = "Must be four unsigned integers separated by commas, e.g. \"10,20,31,42\"";
    assert_eq!(parse_tuple("1,2,3"), Err(msg.to_string()));
    assert_eq!(parse_tuple("1,2,3,4,5"), Err(msg.to_string()));
    assert_eq!(parse_tuple(""), Err(msg.to_string()));
}

#[test]
fn parse_tuple_bad_part() {
    assert_eq!(parse_tuple("1,x,3,4"), Err("Failed to parse integer at position 2: 'x'".to_string()));
    assert_eq!(parse_tuple("1,2,3, "), Err("Failed to parse integer at position 4: ' '".to_string()));
    assert_eq!(
        parse_tuple("4294967296,0,0,0"),
        Err("Failed to parse integer at position 1: '4294967296'".to_string())
    );
    assert_eq!(parse_tuple("1,2,-3,4"), Err("Failed to parse integer at position 3: '-3'".to_string()));
}

#[test]
fn read_u32_cases() {
    assert_eq!(read_u32("0"), Some(0));
    assert_eq!(read_u32("007"), Some(7));
    assert_eq!(read_u32("+12"), Some(12));
    assert_eq!(read_u32("4294967295"), Some(u32::MAX));
    assert_eq!(read_u32("4294967296"), None);
    assert_eq!(read_u32("99999999999999999999"), None);
    assert_eq!(read_u32(""), None);
    assert_eq!(read_u32("+"), None);
    assert_eq!(read_u32("1 2"), None);
    for s in ["0", "+9", "123456", "4294967295", "4294967296", "", "+", "-1", "1a"] {
        assert_eq!(read_u32(s), s.parse::<u32>().ok());
    }
}

#[test]
fn trim_cases() {
    assert_eq!(trim("  a b \n"), "a b");
    assert_eq!(trim("\u{3000}x\u{a0}"), "x");
    assert_eq!(trim("   "), "");
    assert_eq!(trim(""), "");
    for s in [" q ", "\t\r\n z", "\u{2028}w\u{85}", "\u{200b}v"] {
        assert_eq!(trim(s), s.trim());
    }
}

#[test]
fn image_extensions() {
    assert!(is_image_extension("jpg"));
    assert!(is_image_extension("JPEG"));
    assert!(is_image_extension("Png"));
    assert!(is_image_extension("webp"));
    assert!(!is_image_extension("gif"));
    assert!(!is_image_extension("jpgx"));
    assert!(!is_image_extension(""));
}

#[test]
fn image_files_by_extension() {
    assert!(is_image_file(Some("PNG")));
    assert!(is_image_file(Some("webp")));
    assert!(!is_image_file(Some("txt")));
    assert!(!is_image_file(None));
}

#[test]
fn executable_names() {
    assert_eq!(adjust_extension("cs-gui", false, true), "cs-gui.exe");
    assert_eq!(adjust_extension("cs-gui.bin", true, true), "cs-gui.bin");
    assert_eq!(adjust_extension("cs-gui", false, false), "cs-gui");
    assert_eq!(adjust_extension("tool", true, false), "tool");
}
