use m5_go::get_mac;

#[test]
fn mac_is_upper_case_hex_with_colons() {
    assert_eq!(get_mac([0x24, 0x0a, 0xc4, 0x00, 0x01, 0x10]), "24:0A:C4:00:01:10");
}

#[test]
fn mac_edges() {
    assert_eq!(get_mac([0; 6]), "00:00:00:00:00:00");
    assert_eq!(get_mac([0xff; 6]), "FF:FF:FF:FF:FF:FF");
    assert_eq!(get_mac([0x9a, 0xbc, 0xde, 0xf0, 0x12, 0x34]), "9A:BC:DE:F0:12:34");
}
