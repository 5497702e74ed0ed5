use displays_mqtt_bridge::text::{blank, decimal, hex, str_eq, trim_slashes};

#[test]
fn hex_encodes_binary_edid_data() {
    assert_eq!(hex(&[0x00, 0xff, 0x10]), "00ff10");
}

#[test]
fn hex_of_nothing_is_empty() {
    assert_eq!(hex(&[]), "");
    assert_eq!(hex(&[0xab, 0x9c, 0x01]), "ab9c01");
}

#[test]
fn decimal_renders_numbers() {
    assert_eq!(decimal(0), "0");
    assert_eq!(decimal(7), "7");
    assert_eq!(decimal(1883), "1883");
    assert_eq!(decimal(u64::MAX), "18446744073709551615");
}

#[test]
fn slashes_are_trimmed_at_both_ends_only() {
    assert_eq!(trim_slashes("/screens/office/"), "screens/office");
    assert_eq!(trim_slashes("//a//b//"), "a//b");
    assert_eq!(trim_slashes("///"), "");
    assert_eq!(trim_slashes(""), "");
    assert_eq!(trim_slashes("plain"), "plain");
}

#[test]
fn trimming_twice_changes_nothing() {
    let once = trim_slashes("//x/y//");
    assert_eq!(trim_slashes(&once), once);
}

#[test]
fn blank_means_white_space_only() {
    assert!(blank(""));
    assert!(blank(" \t\n\u{3000}"));
    assert!(!blank(" a "));
}

#[test]
fn str_eq_compares_characters() {
    assert!(str_eq("mqtt", "mqtt"));
    assert!(!str_eq("mqtt", "mqtts"));
    assert!(!str_eq("mqtt", "MQTT"));
}

#[test]
fn hex_of_joined_bytes_is_joined_hex_and_reads_back() {
    let a = [0x01u8, 0x7f];
    let b = [0x80u8, 0x0a];
    let joined = [0x01u8, 0x7f, 0x80, 0x0a];
    let text = hex(&joined);
    assert_eq!(text, format!("{}{}", hex(&a), hex(&b)));
    for (i, byte) in joined.iter().enumerate() {
        assert_eq!(u8::from_str_radix(&text[2 * i..2 * i + 2], 16), Ok(*byte));
    }
}
