use mpid_messaging::render::format_binary_array;

#[test]
fn short_byte_strings_are_shown_whole() {
    assert_eq!(format_binary_array(&[]), "");
    assert_eq!(format_binary_array(&[0]), "00");
    assert_eq!(format_binary_array(&[0xab, 0x01]), "ab01");
    assert_eq!(format_binary_array(&[0x0f, 0xf0, 0x9a]), "0ff09a");
    assert_eq!(format_binary_array(&[1, 2, 3, 4, 5, 6]), "010203040506");
}

#[test]
fn long_byte_strings_are_cut_in_the_middle() {
    assert_eq!(format_binary_array(&[1, 2, 3, 4, 5, 6, 7]), "010203..050607");
    assert_eq!(format_binary_array(&[0xff; 64]), "ffffff..ffffff");
    let bytes: Vec<u8> = (0u8..=255).collect();
    assert_eq!(format_binary_array(&bytes), "000102..fdfeff");
}

#[test]
fn every_byte_has_its_two_digits() {
    let digits = "0123456789abcdef".as_bytes();
    for byte in 0u8..=255 {
        let expected = [digits[(byte / 16) as usize], digits[(byte % 16) as usize]];
        assert_eq!(format_binary_array(&[byte]).as_bytes(), expected);
    }
}
