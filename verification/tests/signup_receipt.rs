use openmicc::signup_receipt::{ReceiptParseError, SignupReceipt};

#[test]
fn test_debug_receipt() {
    let hex_str = "ab2f9c27";
    let receipt: SignupReceipt = SignupReceipt::parse(hex_str).unwrap();

    let actual = receipt.debug_string();
    let expected = format!("SignupReceipt(\"{}\")", hex_str);

    assert_eq!(actual, expected)
}

#[test]
fn test_encode_receipt() {
    let raw: u32 = 0xab2f9c27;
    let hex_str = "ab2f9c27";

    let bytes = raw.to_be_bytes();
    let receipt = SignupReceipt(bytes);
    let encoded: String = receipt.to_string();

    assert_eq!(&encoded, hex_str);

    println!("{:?}", bytes);
}

#[test]
fn test_decode_receipt() {
    let raw: u32 = 0xab2f9c27;
    let hex_str = "ab2f9c27";

    let bytes = raw.to_be_bytes();
    let receipt: SignupReceipt = SignupReceipt::parse(hex_str).unwrap();

    assert_eq!(receipt.0, bytes);
}

#[test]
fn receipt_text_parses_back() {
    for bytes in [[0u8, 0, 0, 0], [255, 255, 255, 255], [1, 2, 3, 4], [0x0f, 0xf0, 0xa5, 0x5a]] {
        let receipt = SignupReceipt(bytes);
        let text = receipt.to_string();
        assert_eq!(text.len(), 8);
        assert!(SignupReceipt::parse(&text) == Ok(receipt));
    }
}

#[test]
fn receipt_text_is_lowercase_hex() {
    assert_eq!(SignupReceipt([0xde, 0xad, 0xbe, 0xef]).to_string(), "deadbeef");
    assert_eq!(SignupReceipt([0, 1, 0x10, 0xff]).to_string(), "000110ff");
}

#[test]
fn receipt_parse_accepts_either_case() {
    assert!(SignupReceipt::parse("DEADbeef") == Ok(SignupReceipt([0xde, 0xad, 0xbe, 0xef])));
}

#[test]
fn receipt_parse_wrong_length() {
    assert!(SignupReceipt::parse("abc") == Err(ReceiptParseError::WrongLength { expected: 8, actual: 3 }));
    assert!(SignupReceipt::parse("ab2f9c2711") == Err(ReceiptParseError::WrongLength { expected: 8, actual: 10 }));
    assert!(SignupReceipt::parse("") == Err(ReceiptParseError::WrongLength { expected: 8, actual: 0 }));
    // Length is counted in bytes: four two-byte characters make eight bytes.
    assert!(SignupReceipt::parse("éééé") == Err(ReceiptParseError::InvalidHex));
    assert!(SignupReceipt::parse("ab2f9c2é") == Err(ReceiptParseError::WrongLength { expected: 8, actual: 9 }));
}

#[test]
fn receipt_parse_invalid_hex() {
    assert!(SignupReceipt::parse("ab2f9c2g") == Err(ReceiptParseError::InvalidHex));
    assert!(SignupReceipt::parse("ab f9c27") == Err(ReceiptParseError::InvalidHex));
}

#[test]
fn receipt_from_str() {
    let receipt: SignupReceipt = "ab2f9c27".parse().unwrap();
    assert_eq!(receipt.0, [0xab, 0x2f, 0x9c, 0x27]);
}

#[test]
fn receipt_gen_round_trips() {
    let receipt = SignupReceipt::gen();
    assert!(SignupReceipt::parse(&receipt.to_string()) == Ok(receipt));
}

#[test]
fn parsed_receipt_displays_lowercase() {
    for text in ["AB2F9C27", "ab2f9c27", "Ab2F9c27"] {
        let receipt = SignupReceipt::parse(text).unwrap();
        assert_eq!(receipt.to_string(), text.to_ascii_lowercase());
    }
}
