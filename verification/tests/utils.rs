use resource::device::Address;
use resource::network::error::{ErrorKind, Operation};
use resource::network::utils::{
    format_mac, hex_digit_value, parse_mac, MAC_ADDR_LEN, MAC_TEXT_LEN,
};

#[test]
fn format_mac_writes_lower_case_octets_with_colons() {
    assert_eq!(format_mac(&[0x02, 0x00, 0xca, 0xfe, 0x00, 0x01]).unwrap(), "02:00:ca:fe:00:01");
    assert_eq!(format_mac(&[0xAB, 0xCD, 0xEF, 0x12, 0x34, 0x56]).unwrap(), "ab:cd:ef:12:34:56");
}

#[test]
fn format_mac_of_extreme_octets() {
    assert_eq!(format_mac(&[0; 6]).unwrap(), "00:00:00:00:00:00");
    assert_eq!(format_mac(&[0xff; 6]).unwrap(), "ff:ff:ff:ff:ff:ff");
    assert_eq!(format_mac(&[0x0f, 0xf0, 0x09, 0x90, 0x0a, 0xa0]).unwrap(), "0f:f0:09:90:0a:a0");
}

#[test]
fn format_mac_has_the_canonical_length() {
    assert_eq!(MAC_ADDR_LEN, 6);
    assert_eq!(MAC_TEXT_LEN, 17);
    assert_eq!(format_mac(&[1, 2, 3, 4, 5, 6]).unwrap().len(), MAC_TEXT_LEN);
}

#[test]
fn format_mac_rejects_any_other_length() {
    let inputs: Vec<Vec<u8>> = vec![
        vec![],
        vec![1],
        vec![1, 2, 3, 4, 5],
        vec![1, 2, 3, 4, 5, 6, 7],
        vec![0; 17],
    ];
    for input in inputs {
        let error = format_mac(&input).unwrap_err();
        assert_eq!(error.kind, ErrorKind::InvalidAddress);
        assert_eq!(error.context, vec![Operation::GetMacAddr]);
    }
}

#[test]
fn parse_mac_reads_the_canonical_text() {
    assert_eq!(parse_mac("02:00:ca:fe:00:01").unwrap(), Address([0x02, 0x00, 0xca, 0xfe, 0x00, 0x01]));
    assert_eq!(parse_mac("00:00:00:00:00:00").unwrap(), Address([0; 6]));
    assert_eq!(parse_mac("ff:ff:ff:ff:ff:ff").unwrap(), Address([0xff; 6]));
}

#[test]
fn parse_mac_reads_digits_of_either_case() {
    assert_eq!(parse_mac("AB:CD:EF:12:34:56").unwrap(), Address([0xab, 0xcd, 0xef, 0x12, 0x34, 0x56]));
    assert_eq!(parse_mac("aB:Cd:eF:0A:a0:9f").unwrap(), Address([0xab, 0xcd, 0xef, 0x0a, 0xa0, 0x9f]));
}

#[test]
fn parse_mac_rejects_a_wrong_length() {
    for text in [
        "",
        "02",
        "02:00:ca:fe:00",
        "02:00:ca:fe:00:0",
        "02:00:ca:fe:00:01:",
        "02:00:ca:fe:00:01:02",
        "02:00:ca:fe:00:011",
    ] {
        let error = parse_mac(text).unwrap_err();
        assert_eq!(error.kind, ErrorKind::InvalidAddress, "{:?}", text);
        assert_eq!(error.context, vec![Operation::ParseMacAddress]);
    }
}

#[test]
fn parse_mac_rejects_characters_that_are_no_digits() {
    for text in [
        "0g:00:ca:fe:00:01",
        "02:00:ca:fe:00:0x",
        "02:00:ca:fe:00: 1",
        "+2:00:ca:fe:00:01",
        "02:00:zz:fe:00:01",
        "02:00:ca:fe:00:0/",
        "02:00:ca:f@:00:01",
        "02:00:ca:fe:`0:01",
        "02:00:ca:fe:0G:01",
        "02:00:ca:fe:00:\u{e9}1",
    ] {
        let error = parse_mac(text).unwrap_err();
        assert_eq!(error.kind, ErrorKind::InvalidAddress, "{:?}", text);
        assert_eq!(error.context, vec![Operation::ParseMacAddress]);
    }
}

#[test]
fn parse_mac_rejects_a_wrong_separator() {
    for text in [
        "02-00-ca-fe-00-01",
        "02:00:ca:fe:00-01",
        "02.00.ca.fe.00.01",
        "02:00:ca:fe:00001",
        "02 00 ca fe 00 01",
        "0200:ca:fe:00:01:",
        ":02:00:ca:fe:00:0",
        "02::00:ca:fe:00:1",
    ] {
        let error = parse_mac(text).unwrap_err();
        assert_eq!(error.kind, ErrorKind::InvalidAddress, "{:?}", text);
    }
}

#[test]
fn parse_mac_rejects_octets_of_one_digit() {
    assert!(parse_mac("2:0:ca:fe:0:1").is_err());
    assert!(parse_mac("2:0:ca:fe:0:1:2:3:4").is_err());
}

#[test]
fn parse_mac_gives_back_what_format_mac_was_given() {
    for value in 0..=255u8 {
        for place in 0..6 {
            let mut octets = [0x5au8; 6];
            octets[place] = value;
            let text = format_mac(&octets).unwrap();
            assert_eq!(parse_mac(&text).unwrap(), Address(octets));
        }
    }
}

#[test]
fn format_mac_gives_back_lower_case_of_what_parse_mac_read() {
    let address = parse_mac("DE:AD:BE:EF:00:7F").unwrap();
    assert_eq!(format_mac(&address.0).unwrap(), "de:ad:be:ef:00:7f");
}

#[test]
fn hex_digit_value_of_every_digit() {
    let digits = "0123456789abcdef";
    for (value, digit) in digits.chars().enumerate() {
        assert_eq!(hex_digit_value(digit), Some(value as u8));
        assert_eq!(hex_digit_value(digit.to_ascii_uppercase()), Some(value as u8));
    }
}

#[test]
fn hex_digit_value_of_other_characters() {
    for c in ['g', 'G', ':', ' ', '/', '@', '`', 'z', '-', '\u{ff10}'] {
        assert_eq!(hex_digit_value(c), None);
    }
}
