use chardevgpio::text::{decode_text, encode_label, text_len, LABEL_MAX};

fn buffer(text: &[u8]) -> [u8; 32] {
    let mut buf = [0u8; 32];
    buf[..text.len()].copy_from_slice(text);
    buf
}

#[test]
fn decode_stops_at_first_zero_byte() {
    assert_eq!(decode_text(&buffer(b"GPIO22")), "GPIO22");
    assert_eq!(text_len(&buffer(b"GPIO22")), 6);
}

#[test]
fn decode_ignores_what_follows_the_zero_byte() {
    assert_eq!(decode_text(&buffer(b"pin\0ghost")), "pin");
    assert_eq!(text_len(&buffer(b"pin\0ghost")), 3);
}

#[test]
fn decode_of_zeros_is_empty() {
    assert_eq!(decode_text(&[0u8; 32]), "");
    assert_eq!(text_len(&[0u8; 32]), 0);
}

#[test]
fn decode_of_empty_buffer_is_empty() {
    assert_eq!(decode_text(&[]), "");
    assert_eq!(text_len(&[]), 0);
}

#[test]
fn decode_without_zero_byte_takes_the_whole_buffer() {
    let buf = [b'a'; 32];
    assert_eq!(text_len(&buf), 32);
    assert_eq!(decode_text(&buf), "a".repeat(32));
}

#[test]
fn decode_of_invalid_utf8_is_empty() {
    assert_eq!(decode_text(&buffer(&[b'o', b'k', 0xff, b'x'])), "");
    assert_eq!(decode_text(&buffer(&[0xc3])), "");
    assert_eq!(decode_text(&buffer(&[0xed, 0xa0, 0x80])), "");
}

#[test]
fn decode_invalid_bytes_after_the_zero_byte_do_not_matter() {
    assert_eq!(decode_text(&buffer(&[b'o', b'k', 0, 0xff])), "ok");
}

#[test]
fn decode_reads_multi_byte_characters() {
    assert_eq!(decode_text(&buffer("légende ✓".as_bytes())), "légende ✓");
}

#[test]
fn decode_of_character_cut_by_the_end_is_empty() {
    let mut buf = [b'a'; 32];
    buf[31] = 0xc3;
    assert_eq!(decode_text(&buf), "");
}

#[test]
fn label_is_laid_out_with_zero_padding() {
    assert_eq!(encode_label("test"), buffer(b"test"));
    assert_eq!(encode_label(""), [0u8; 32]);
}

#[test]
fn label_is_cut_after_31_bytes() {
    assert_eq!(LABEL_MAX, 31);
    let long = "x".repeat(40);
    let buf = encode_label(&long);
    assert_eq!(&buf[..31], "x".repeat(31).as_bytes());
    assert_eq!(buf[31], 0);
    let exact = "y".repeat(31);
    let buf = encode_label(&exact);
    assert_eq!(&buf[..31], exact.as_bytes());
    assert_eq!(buf[31], 0);
}

#[test]
fn label_round_trip() {
    for label in ["test", "", "gpio-get", "légende", "0123456789012345678901234567890"] {
        assert_eq!(decode_text(&encode_label(label)), label);
    }
}

#[test]
fn label_with_zero_byte_reads_back_up_to_it() {
    assert_eq!(decode_text(&encode_label("ab\0cd")), "ab");
}
