use vst3_host::util::{split_on, str_eq, truncate, ToRustString};

fn bytes64(text: &[u8]) -> [u8; 64] {
    let mut array = [0u8; 64];
    array[..text.len()].copy_from_slice(text);
    array
}

#[test]
fn bytes_end_at_the_first_zero() {
    assert_eq!(bytes64(b"Steinberg").to_rust_string(), "Steinberg");
    assert_eq!(bytes64(b"").to_rust_string(), "");
    assert_eq!(bytes64(b"ab\0cd").to_rust_string(), "ab");
}

#[test]
fn bytes_without_a_zero_are_taken_whole() {
    let array = [b'x'; 8];
    assert_eq!(array.to_rust_string(), "xxxxxxxx");
    let empty: [u8; 0] = [];
    assert_eq!(empty.to_rust_string(), "");
}

#[test]
fn bytes_are_read_as_utf8() {
    assert_eq!(bytes64("Pl\u{fc}gin".as_bytes()).to_rust_string(), "Pl\u{fc}gin");
    // An ill-formed byte becomes the replacement character.
    assert_eq!(bytes64(b"a\xffb").to_rust_string(), "a\u{fffd}b");
}

#[test]
fn units_end_at_the_first_zero() {
    let mut units = [0u16; 128];
    for (i, unit) in "Stereo In".encode_utf16().enumerate() {
        units[i] = unit;
    }
    assert_eq!(units.to_rust_string(), "Stereo In");
    assert_eq!([0u16; 128].to_rust_string(), "");
}

#[test]
fn units_are_read_as_utf16() {
    let units: [u16; 4] = [0xD83C, 0xDFB5, 0x0041, 0x0000];
    assert_eq!(units.to_rust_string(), "\u{1f3b5}A");
    // An unpaired surrogate becomes the replacement character.
    let broken: [u16; 3] = [0x0041, 0xD800, 0x0042];
    assert_eq!(broken.to_rust_string(), "A\u{fffd}B");
}

#[test]
fn split_on_commas() {
    assert_eq!(split_on("Fx,Delay", ','), vec!["Fx", "Delay"]);
    assert_eq!(split_on("Instrument", ','), vec!["Instrument"]);
    assert_eq!(split_on("", ','), vec![""]);
    assert_eq!(split_on(",", ','), vec!["", ""]);
    assert_eq!(split_on("a,,b,", ','), vec!["a", "", "b", ""]);
    assert_eq!(split_on("Fx|Delay", ','), vec!["Fx|Delay"]);
}

#[test]
fn split_on_agrees_with_std() {
    for text in ["", "a", ",a", "a,", "a,b,c", ",,", "\u{e9},\u{1f3b5},x"] {
        let expected: Vec<String> = text.split(',').map(String::from).collect();
        assert_eq!(split_on(text, ','), expected);
    }
}

#[test]
fn str_eq_compares_texts() {
    assert!(str_eq("", ""));
    assert!(str_eq("Audio Module Class", "Audio Module Class"));
    assert!(!str_eq("Audio Module Class", "Audio Module Clasz"));
    assert!(!str_eq("abc", "ab"));
    assert!(!str_eq("ab", "abc"));
    assert!(str_eq("\u{e9}", "\u{e9}"));
}

#[test]
fn truncate_keeps_the_first_characters() {
    assert_eq!(truncate("Steinberg Media", 9), "Steinberg");
    assert_eq!(truncate("abc", 3), "abc");
    assert_eq!(truncate("abc", 16), "abc");
    assert_eq!(truncate("abc", 0), "");
    assert_eq!(truncate("\u{e9}\u{e8}\u{ea}", 2), "\u{e9}\u{e8}");
}
