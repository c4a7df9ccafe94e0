use subservice::{decode_base64_url, encode_base64_url, Error};

#[test]
fn decodes_url_safe_text() {
    assert_eq!(decode_base64_url("aGVsbG8=").unwrap(), b"hello".to_vec());
    assert_eq!(decode_base64_url("-_8=").unwrap(), vec![0xfb, 0xff]);
    assert_eq!(decode_base64_url("").unwrap(), Vec::<u8>::new());
}

#[test]
fn encodes_url_safe_text() {
    assert_eq!(encode_base64_url(b"hello"), "aGVsbG8=");
    assert_eq!(encode_base64_url(&[0xfb, 0xff]), "-_8=");
}

#[test]
fn decode_then_encode_gives_the_text_back() {
    for text in ["aGVsbG8=", "-_8=", "aHR0cHM6Ly9leGFtcGxlLmNvbS9h", ""] {
        let bytes = decode_base64_url(text).unwrap();
        assert_eq!(encode_base64_url(&bytes), text);
    }
}

#[test]
fn encode_then_decode_gives_the_bytes_back() {
    for bytes in [vec![], vec![0u8], vec![0xfb, 0xff, 0x00, 0x10], vec![9u8; 65]] {
        assert_eq!(decode_base64_url(&encode_base64_url(&bytes)).unwrap(), bytes);
    }
}

#[test]
fn malformed_text_is_invalid_url_format() {
    for bad in ["aGVsbG8", "+/8=", "a$bc", "=", "aGVsbG9=", "aGVsbG8=="] {
        assert_eq!(decode_base64_url(bad), Err(Error::InvalidURLFormat), "{}", bad);
    }
}

#[test]
fn error_messages() {
    assert_eq!(Error::InvalidAmountOfSOL.message(), "Wrong amount of SOL!");
    assert_eq!(Error::InvalidURLFormat.message(), "Invalid URL format!");
    assert_eq!(Error::ItemDoesNotExist.message(), "Item does not exist in this collection!");
    assert_eq!(Error::TooManySubscriptions.message(), "Too many subscriptions!");
}
