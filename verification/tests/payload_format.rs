use netgauge::payload::{
    clean_payload, clean_text, read_payload, read_text, MalformedPayload, RateFields, FIELD_SEPARATOR,
};

fn fields(receive: &str, transmit: &str) -> RateFields {
    RateFields { receive: receive.to_string(), transmit: transmit.to_string() }
}

fn malformed(text: &str) -> MalformedPayload {
    MalformedPayload { text: text.to_string() }
}

#[test]
fn separator_is_a_colon() {
    assert_eq!(FIELD_SEPARATOR, ':');
}

#[test]
fn documented_example_gives_both_fields() {
    assert_eq!(read_payload(b"ifname:1234.5:6789.0"), Ok(fields("1234.5", "6789.0")));
}

#[test]
fn first_field_is_ignored() {
    assert_eq!(read_payload(b":1:2"), Ok(fields("1", "2")));
    assert_eq!(read_payload(b"anything at all:1:2"), Ok(fields("1", "2")));
}

#[test]
fn fields_after_the_third_are_ignored() {
    assert_eq!(read_payload(b"eth0:10:20:30:40"), Ok(fields("10", "20")));
}

#[test]
fn surrounding_whitespace_is_stripped() {
    assert_eq!(read_payload(b"  eth0:1.5:2.5\r\n"), Ok(fields("1.5", "2.5")));
    assert_eq!(read_payload(b"eth0: 1.5 :\t2.5 "), Ok(fields("1.5", "2.5")));
}

#[test]
fn embedded_nuls_are_stripped() {
    assert_eq!(read_payload(b"eth0:1.5:2.5\0\0\0"), Ok(fields("1.5", "2.5")));
    assert_eq!(read_payload(b"eth0:1\0.5:2.\x005"), Ok(fields("1.5", "2.5")));
    assert_eq!(read_payload(b"eth0:1.5:2.5 \0 \0"), Ok(fields("1.5", "2.5")));
}

#[test]
fn empty_rate_fields_are_kept_empty() {
    assert_eq!(read_payload(b"::"), Ok(fields("", "")));
    assert_eq!(read_payload(b"a: :"), Ok(fields("", "")));
}

#[test]
fn fewer_than_three_fields_is_malformed() {
    assert_eq!(read_payload(b""), Err(malformed("")));
    assert_eq!(read_payload(b"eth0"), Err(malformed("eth0")));
    assert_eq!(read_payload(b"eth0:1.5"), Err(malformed("eth0:1.5")));
    assert_eq!(read_payload(b":"), Err(malformed(":")));
}

#[test]
fn malformed_text_is_cleaned() {
    assert_eq!(read_payload(b"  eth0\0:1.5 \n"), Err(malformed("eth0:1.5")));
    assert_eq!(read_payload(b" \0 "), Err(malformed("")));
}

#[test]
fn invalid_utf8_is_replaced_not_rejected() {
    assert_eq!(read_payload(b"\xff\xfe:1:2"), Ok(fields("1", "2")));
    assert_eq!(read_payload(b"eth0:1\xff:2"), Ok(fields("1\u{FFFD}", "2")));
    assert_eq!(read_payload(b"\xffabc"), Err(malformed("\u{FFFD}abc")));
}

#[test]
fn multibyte_text_is_decoded() {
    assert_eq!(read_payload("línea:1:2".as_bytes()), Ok(fields("1", "2")));
    assert_eq!(read_payload("x:\u{3000}7\u{A0}:8".as_bytes()), Ok(fields("7", "8")));
}

#[test]
fn read_text_works_on_decoded_text() {
    assert_eq!(read_text("eth1:1500.0:3000.0"), Ok(fields("1500.0", "3000.0")));
    assert_eq!(read_text("eth1"), Err(malformed("eth1")));
}

#[test]
fn clean_payload_drops_nuls_and_trims() {
    assert_eq!(clean_payload(b"  eth0:1.5:2.5\0\0 \r\n"), "eth0:1.5:2.5");
    assert_eq!(clean_payload(b"\0 a \0 b \0"), "a  b");
    assert_eq!(clean_payload(b""), "");
    assert_eq!(clean_payload(b"x\xffy"), "x\u{FFFD}y");
}

#[test]
fn clean_text_drops_nuls_and_trims() {
    let cleaned: String = clean_text(" \0eth1 : 7\t").iter().collect();
    assert_eq!(cleaned, "eth1 : 7");
}
