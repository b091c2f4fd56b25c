use clicks_remote::parse::{parse_ipv4, parse_u16};
use clicks_remote::text::TextBuffer;

fn buf(s: &[u8]) -> TextBuffer<32> {
    TextBuffer::from_bytes(s)
}

#[test]
fn parse_u16_accepts_plain_decimals() {
    assert_eq!(parse_u16(&buf(b"0")), Some(0));
    assert_eq!(parse_u16(&buf(b"8081")), Some(8081));
    assert_eq!(parse_u16(&buf(b"65535")), Some(65535));
    assert_eq!(parse_u16(&buf(b"007")), Some(7));
}

#[test]
fn parse_u16_tolerates_one_leading_plus() {
    assert_eq!(parse_u16(&buf(b"+123")), Some(123));
    assert_eq!(parse_u16(&buf(b"++1")), None);
    assert_eq!(parse_u16(&buf(b"+")), None);
}

#[test]
fn parse_u16_rejects_empty_garbage_and_overflow() {
    assert_eq!(parse_u16(&buf(b"")), None);
    assert_eq!(parse_u16(&buf(b"12a")), None);
    assert_eq!(parse_u16(&buf(b"-1")), None);
    assert_eq!(parse_u16(&buf(b"65536")), None);
    assert_eq!(parse_u16(&buf(b"999999999999999999999999999999")), None);
    assert_eq!(parse_u16(&buf(b"1 2")), None);
}

#[test]
fn parse_ipv4_accepts_dotted_quads() {
    assert_eq!(parse_ipv4(&buf(b"192.168.1.135")), Some([192, 168, 1, 135]));
    assert_eq!(parse_ipv4(&buf(b"0.0.0.0")), Some([0, 0, 0, 0]));
    assert_eq!(parse_ipv4(&buf(b"255.255.255.255")), Some([255, 255, 255, 255]));
    assert_eq!(parse_ipv4(&buf(b"10.0.00.042")), Some([10, 0, 0, 42]));
}

#[test]
fn parse_ipv4_rejects_bad_shapes() {
    assert_eq!(parse_ipv4(&buf(b"")), None);
    assert_eq!(parse_ipv4(&buf(b"1.2.3")), None); // too few groups
    assert_eq!(parse_ipv4(&buf(b"1.2.3.4.5")), None); // too many
    assert_eq!(parse_ipv4(&buf(b"1..2.3")), None); // empty group
    assert_eq!(parse_ipv4(&buf(b".1.2.3")), None);
    assert_eq!(parse_ipv4(&buf(b"1.2.3.")), None);
    assert_eq!(parse_ipv4(&buf(b"a.b.c.d")), None);
    assert_eq!(parse_ipv4(&buf(b"1.2.3.4 ")), None); // trailing junk
}

#[test]
fn parse_ipv4_rejects_overflowing_octets() {
    assert_eq!(parse_ipv4(&buf(b"256.1.1.1")), None);
    assert_eq!(parse_ipv4(&buf(b"1.1.1.999")), None);
    // Long runs of leading zeros stay in range (26 digits, 32 bytes total).
    let mut text = b"1.1.1.".to_vec();
    text.extend_from_slice(&[b'0'; 25]);
    text.push(b'1');
    assert_eq!(text.len(), 32);
    assert_eq!(parse_ipv4(&buf(&text)), Some([1, 1, 1, 1]));
}
