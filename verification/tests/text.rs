use packet_forge::text::{
    digit_text, format_decimal, packet_dump, push_decimal, push_hex_byte, push_ipv4, same_text,
};

#[test]
fn decimal_of_zero_is_one_digit() {
    assert_eq!(format_decimal(0), "0");
}

#[test]
fn decimal_has_no_leading_zeros() {
    assert_eq!(format_decimal(7), "7");
    assert_eq!(format_decimal(10), "10");
    assert_eq!(format_decimal(2048), "2048");
    assert_eq!(format_decimal(57000), "57000");
}

#[test]
fn decimal_of_the_largest_numbers() {
    assert_eq!(format_decimal(4294967295), "4294967295");
    assert_eq!(format_decimal(u64::MAX), "18446744073709551615");
}

#[test]
fn push_decimal_keeps_what_was_there() {
    let mut out = String::from("n = ");
    push_decimal(&mut out, 305);
    assert_eq!(out, "n = 305");
}

#[test]
fn ipv4_is_dotted_decimal() {
    let mut out = String::new();
    push_ipv4(&mut out, &[93, 184, 216, 34]);
    assert_eq!(out, "93.184.216.34");
    let mut out = String::new();
    push_ipv4(&mut out, &[0, 0, 0, 0]);
    assert_eq!(out, "0.0.0.0");
    let mut out = String::new();
    push_ipv4(&mut out, &[255, 255, 255, 255]);
    assert_eq!(out, "255.255.255.255");
}

#[test]
fn dump_of_a_bare_header_is_one_row() {
    let bytes: Vec<u8> = vec![0, 1, 2, 3, 4, 5, 6, 7, 8, 9, 10, 11, 12, 255];
    assert_eq!(packet_dump(&bytes), "00 01 02 03 04 05 06 07 08 09 0a 0b 0c ff ");
}

#[test]
fn dump_breaks_the_row_after_the_header() {
    let mut bytes: Vec<u8> = vec![0x10; 14];
    bytes.push(0xab);
    bytes.push(0x0c);
    assert_eq!(
        packet_dump(&bytes),
        "10 10 10 10 10 10 10 10 10 10 10 10 10 10 \nab 0c "
    );
}

#[test]
fn dump_of_a_short_packet_is_one_row() {
    assert_eq!(packet_dump(&[]), "");
    assert_eq!(packet_dump(&[0xde, 0xad, 0x01]), "de ad 01 ");
}

#[test]
fn same_text_compares_characters() {
    assert!(same_text("org", "org"));
    assert!(same_text("", ""));
    assert!(!same_text("org", "orc"));
    assert!(!same_text("org", "organ"));
    assert!(!same_text("organ", "org"));
    assert!(same_text("é;ü", "é;ü"));
    assert!(!same_text("é", "e"));
}

#[test]
fn digits_up_to_sixteen() {
    assert_eq!(digit_text(0), "0");
    assert_eq!(digit_text(9), "9");
    assert_eq!(digit_text(10), "a");
    assert_eq!(digit_text(15), "f");
    assert_eq!(digit_text(16), "0");
}

#[test]
fn a_byte_is_two_hex_digits() {
    let mut out = String::new();
    push_hex_byte(&mut out, 0);
    push_hex_byte(&mut out, 0x0f);
    push_hex_byte(&mut out, 0xa0);
    push_hex_byte(&mut out, 0xff);
    assert_eq!(out, "000fa0ff");
}
