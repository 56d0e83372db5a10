//! Fixed-width wide-character text decoding.

use race_sdk::ac::types::utf16_to_string;

#[test]
fn decodes_null_terminated_prefix() {
    let mut units = [0u16; 15];
    units[0] = 0x0041;
    units[1] = 0x0042;
    assert_eq!(utf16_to_string(&units), "AB");
}

#[test]
fn decodes_empty_field() {
    let units = [0u16; 15];
    assert_eq!(utf16_to_string(&units), "");
}

#[test]
fn decodes_full_array_without_terminator() {
    let units = [0x0058u16; 33];
    let s = utf16_to_string(&units);
    assert_eq!(s.chars().count(), 33);
    assert!(s.chars().all(|c| c == 'X'));
}

#[test]
fn substitutes_replacement_for_unpaired_high_surrogate() {
    let units = [0x0041u16, 0xD800, 0x0042, 0, 0];
    assert_eq!(utf16_to_string(&units), "A\u{FFFD}B");
}

#[test]
fn substitutes_replacement_for_unpaired_low_surrogate() {
    let units = [0xDC00u16, 0x0041, 0];
    assert_eq!(utf16_to_string(&units), "\u{FFFD}A");
}

#[test]
fn decodes_surrogate_pair() {
    let units = [0xD83Du16, 0xDE00, 0, 0];
    assert_eq!(utf16_to_string(&units), "\u{1F600}");
}

#[test]
fn acc_decoder_agrees() {
    let units = [0x004Du16, 0x006F, 0x006E, 0x007A, 0x0061, 0, 0x0058];
    assert_eq!(race_sdk::acc::types::utf16_to_string(&units), "Monza");
}

#[test]
fn stops_at_first_zero_unit() {
    let units = [0x0041u16, 0, 0x0042, 0x0043];
    assert_eq!(utf16_to_string(&units), "A");
}
