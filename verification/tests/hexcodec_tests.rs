use drone_mesh::hexcodec::{hex_decode, hex_encode, HexError};

#[test]
fn hex_encode_known_value() {
    assert_eq!(hex_encode(&[0xbe, 0xef, 0x00, 0x0a]), "beef000a");
    assert_eq!(hex_encode(&[]), "");
}

#[test]
fn hex_encode_matches_hex_crate() {
    let bytes: Vec<u8> = (0u16..=255).map(|b| b as u8).collect();
    assert_eq!(hex_encode(&bytes), hex::encode(&bytes));
}

#[test]
fn hex_decode_accepts_both_cases() {
    assert_eq!(hex_decode("BEef0A").unwrap(), vec![0xbe, 0xef, 0x0a]);
    assert_eq!(hex_decode("").unwrap(), Vec::<u8>::new());
}

#[test]
fn hex_decode_odd_length() {
    assert_eq!(hex_decode("123"), Err(HexError::OddLength));
}

#[test]
fn hex_decode_invalid_character_reports_first_bad_byte() {
    assert_eq!(hex_decode("0g"), Err(HexError::InvalidHexCharacter { c: 'g', index: 1 }));
    assert_eq!(hex_decode("zz"), Err(HexError::InvalidHexCharacter { c: 'z', index: 0 }));
    assert_eq!(hex_decode("00x1"), Err(HexError::InvalidHexCharacter { c: 'x', index: 2 }));
}

#[test]
fn hex_decode_matches_hex_crate_errors() {
    for text in ["0g", "zz", "00x1", "123", "abcd", "ABCD"] {
        let ours = hex_decode(text);
        let theirs = hex::decode(text);
        match (ours, theirs) {
            (Ok(a), Ok(b)) => assert_eq!(a, b),
            (Err(HexError::OddLength), Err(hex::FromHexError::OddLength)) => {}
            (Err(HexError::InvalidHexCharacter { c, index }), Err(hex::FromHexError::InvalidHexCharacter { c: c2, index: i2 })) => {
                assert_eq!((c, index), (c2, i2));
            }
            (a, b) => panic!("mismatch on {text}: {a:?} vs {b:?}"),
        }
    }
}

#[test]
fn hex_round_trip() {
    let bytes = vec![0u8, 1, 2, 254, 255, 16, 15];
    assert_eq!(hex_decode(&hex_encode(&bytes)).unwrap(), bytes);
}
