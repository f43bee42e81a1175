use devbridge::error::Error;
use devbridge::file::{generate_tmp_file_name, TmpFile};
use devbridge::lpk::{
    check_image_digest, chip_supported, image_addr, image_entry_path, md5, parse_addr,
    validate_manifest, Image,
};
use devbridge::text::decode;

#[test]
fn parse_addr_hexadecimal() {
    assert_eq!(parse_addr("0x1000"), Some(0x1000));
    assert_eq!(parse_addr("0xDEADBEEF"), Some(0xDEADBEEF));
    assert_eq!(parse_addr("0xdeadbeef"), Some(0xDEADBEEF));
}

#[test]
fn parse_addr_decimal() {
    assert_eq!(parse_addr("0"), Some(0));
    assert_eq!(parse_addr("123456"), Some(123456));
    assert_eq!(parse_addr("4294967295"), Some(u32::MAX));
}

#[test]
fn parse_addr_rejects_bad_input() {
    assert_eq!(parse_addr(""), None);
    assert_eq!(parse_addr("0x"), None);
    assert_eq!(parse_addr("0xZZ"), None);
    assert_eq!(parse_addr("12a"), None);
    assert_eq!(parse_addr("-5"), None);
    assert_eq!(parse_addr("4294967296"), None);
    assert_eq!(parse_addr("0x100000000"), None);
}

#[test]
fn parse_addr_accepts_a_leading_plus() {
    assert_eq!(parse_addr("+10"), Some(10));
    assert_eq!(parse_addr("0x+A"), Some(10));
    assert_eq!(parse_addr("+"), None);
}

#[test]
fn chip_family_check_is_case_insensitive() {
    assert!(chip_supported("csk6-abc"));
    assert!(chip_supported("CSK6001"));
    assert!(chip_supported("CsK6"));
    assert!(!chip_supported("csk5"));
    assert!(!chip_supported(""));
}

#[test]
fn md5_of_empty_input_is_the_known_digest() {
    let digest = md5(&Vec::new());
    assert_eq!(digest, "d41d8cd98f00b204e9800998ecf8427e");
}

#[test]
fn md5_depends_on_the_bytes() {
    let digest = md5(&b"abc".to_vec());
    assert_eq!(digest, "900150983cd24fb0d6963f7d28e17f72");
}

#[test]
fn digest_comparison_folds_the_expected_side() {
    let image = Image {
        addr: "0x0".to_string(),
        file: "./app.bin".to_string(),
        md5: "900150983CD24FB0D6963F7D28E17F72".to_string(),
    };
    assert!(check_image_digest(&image, "900150983cd24fb0d6963f7d28e17f72").is_ok());
    match check_image_digest(&image, "ffffffffffffffffffffffffffffffff") {
        Err(e) => assert_eq!(e.message(), "Invalid LPK: MD5 mismatch for ./app.bin"),
        Ok(()) => panic!("a wrong digest must be rejected"),
    }
}

#[test]
fn image_addr_reports_the_offending_text() {
    let image = Image {
        addr: "xyz".to_string(),
        file: "./a".to_string(),
        md5: String::new(),
    };
    match image_addr(&image) {
        Err(e) => assert_eq!(e.message(), "Invalid LPK: Invalid address \"xyz\""),
        Ok(v) => panic!("\"xyz\" is no address, got {}", v),
    }
    let good = Image {
        addr: "0x40000".to_string(),
        file: "./a".to_string(),
        md5: String::new(),
    };
    assert_eq!(image_addr(&good).unwrap(), 0x40000);
}

#[test]
fn manifest_rules_complain_in_order() {
    match validate_manifest("riscv", 3) {
        Err(e) => assert_eq!(e.message(), "Invalid LPK: Chip unsupported"),
        Ok(()) => panic!("an unsupported chip must be rejected"),
    }
    match validate_manifest("csk6", 0) {
        Err(e) => assert_eq!(e.message(), "Invalid LPK: No images found"),
        Ok(()) => panic!("an image-less manifest must be rejected"),
    }
    assert!(validate_manifest("csk6", 1).is_ok());
}

#[test]
fn image_entry_path_strips_the_leading_marker() {
    assert_eq!(image_entry_path("./images/app.bin"), "images/app.bin");
}

#[test]
fn tmp_file_takes_its_name_from_the_package_path() {
    let record = TmpFile::from(
        "/cache/unpacked/x.bin".to_string(),
        "images/app.bin",
        1024,
        7,
    )
    .expect("the package path has a file name");
    assert_eq!(record.path, "/cache/unpacked/x.bin");
    assert_eq!(record.name, "app.bin");
    assert_eq!(record.size, 1024);
    assert_eq!(record.mtime, 7);
}

#[test]
fn tmp_file_rejects_a_nameless_package_path() {
    assert!(TmpFile::from("/p".to_string(), "", 0, 0).is_none());
    assert!(TmpFile::from("/p".to_string(), "images/", 0, 0).is_none());
}

#[test]
fn tmp_file_names_have_the_drawn_shape() {
    let name = generate_tmp_file_name();
    assert_eq!(name.chars().count(), 14);
    assert!(name.ends_with(".bin"));
    assert!(name.chars().take(10).all(|c| c.is_ascii_alphanumeric()));
    // Two draws almost surely differ; equality would suggest the name is
    // not drawn at all. Retry once to keep the test deterministic enough.
    let other = generate_tmp_file_name();
    let third = generate_tmp_file_name();
    assert!(name != other || name != third);
}

#[test]
fn decode_passes_valid_utf8_through() {
    assert_eq!(decode(b"hello".to_vec()), "hello");
    assert_eq!(decode(Vec::new()), "");
}

#[test]
fn decode_replaces_invalid_sequences() {
    assert_eq!(decode(vec![0xFF]), "\u{FFFD}");
    assert_eq!(decode(vec![b'o', b'k', 0xC3]), "ok\u{FFFD}");
}

#[test]
fn error_messages_wrap_only_validation_failures() {
    let io = Error::Io {
        message: "no such file".to_string(),
    };
    assert_eq!(io.message(), "no such file");
    let adb = Error::Adb {
        message: "connection reset".to_string(),
    };
    assert_eq!(adb.message(), "connection reset");
    let usb = Error::Usb {
        message: "no device".to_string(),
    };
    assert_eq!(usb.message(), "no device");
}
