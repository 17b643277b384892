//! Wide-character encoding and decoding, held against the standard
//! library's own UTF-16 conversions.

use sf_rs::wstring::{decode_wide, encode_wide};
use sf_rs::Error;

#[test]
fn ascii_decodes() {
    let units: Vec<u16> = "hello".encode_utf16().collect();
    assert_eq!(decode_wide(&units).unwrap(), "hello");
}

#[test]
fn empty_buffer_decodes_to_empty_text() {
    let units: Vec<u16> = Vec::new();
    assert_eq!(decode_wide(&units).unwrap(), "");
}

#[test]
fn surrogate_pair_decodes_to_one_character() {
    // U+1D11E (musical symbol G clef) encodes as the pair D834 DD1E.
    let units = vec![0xd834, 0xdd1e];
    let s = decode_wide(&units).unwrap();
    assert_eq!(s, "\u{1d11e}");
    assert_eq!(s.chars().count(), 1);
}

#[test]
fn mixed_text_decodes() {
    let original = "fabric:/app/svc-\u{00e9}\u{1f600}";
    let units: Vec<u16> = original.encode_utf16().collect();
    assert_eq!(decode_wide(&units).unwrap(), original);
}

#[test]
fn lone_high_surrogate_is_a_decode_error() {
    assert_eq!(decode_wide(&vec![0xd800]).unwrap_err(), Error::Utf16StringDecode);
}

#[test]
fn lone_low_surrogate_is_a_decode_error() {
    assert_eq!(
        decode_wide(&vec![0x61, 0xdc00, 0x62]).unwrap_err(),
        Error::Utf16StringDecode
    );
}

#[test]
fn high_surrogate_followed_by_non_low_is_a_decode_error() {
    assert_eq!(
        decode_wide(&vec![0xd834, 0x61]).unwrap_err(),
        Error::Utf16StringDecode
    );
}

#[test]
fn decoding_agrees_with_the_standard_library() {
    for sample in ["", "a", "abc", "\u{00e9}\u{0416}\u{4e2d}", "\u{1d11e}\u{1f600}"] {
        let units: Vec<u16> = sample.encode_utf16().collect();
        assert_eq!(decode_wide(&units).unwrap(), String::from_utf16(&units).unwrap());
    }
    for bad in [vec![0xdc00u16], vec![0xd800, 0xd800], vec![0xd834]] {
        assert!(String::from_utf16(&bad).is_err());
        assert_eq!(decode_wide(&bad).unwrap_err(), Error::Utf16StringDecode);
    }
}

#[test]
fn encoding_agrees_with_the_standard_library() {
    for sample in ["", "a", "fabric:/app/svc", "\u{00e9}\u{0416}", "\u{1d11e}\u{1f600}"] {
        let expected: Vec<u16> = sample.encode_utf16().collect();
        assert_eq!(encode_wide(sample), expected);
    }
}

#[test]
fn encode_then_decode_round_trips() {
    for sample in ["", "x", "fabric:/app/svc", "\u{1d11e} mixed \u{00e9}"] {
        assert_eq!(decode_wide(&encode_wide(sample)).unwrap(), sample);
    }
}
