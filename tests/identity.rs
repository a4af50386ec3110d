use chat_cli::identity::{generate_id, host_identifier, lower_hex};

const MAC: [u8; 6] = [0x00, 0x1A, 0x2B, 0x3C, 0x4D, 0x5E];

#[test]
fn identifier_joins_address_and_trimmed_name() {
    assert_eq!(host_identifier(MAC, b"myhost\n"), "00:1A:2B:3C:4D:5E-myhost");
    assert_eq!(host_identifier([255; 6], b"  box \r\n"), "FF:FF:FF:FF:FF:FF-box");
}

#[test]
fn identifier_trims_unicode_white_space_only() {
    let out = "\u{3000}\tmy host\u{a0}\n".as_bytes();
    assert_eq!(host_identifier([1, 2, 3, 4, 5, 6], out), "01:02:03:04:05:06-my host");
    let out = "x\u{200b}".as_bytes();
    assert_eq!(host_identifier([0; 6], out), "00:00:00:00:00:00-x\u{200b}");
}

#[test]
fn identifier_replaces_invalid_bytes() {
    assert_eq!(host_identifier([0; 6], &[b'a', 0xff, b'b']), "00:00:00:00:00:00-a\u{fffd}b");
}

#[test]
fn identity_is_sha256_in_lower_hex() {
    assert_eq!(
        generate_id(MAC, b"myhost\n"),
        "a4b20376e8a666648dc335cb810f7ffdc47bc1cd81a7049e08ea08a0e628556f"
    );
}

#[test]
fn identity_is_stable_across_calls() {
    let a = generate_id(MAC, b"myhost\n");
    let b = generate_id(MAC, b"myhost\n");
    let c = generate_id(MAC, b"myhost");
    assert_eq!(a, b);
    assert_eq!(a, c);
    assert_eq!(a.len(), 64);
    assert!(a.chars().all(|ch| ch.is_ascii_digit() || ('a'..='f').contains(&ch)));
}

#[test]
fn identity_differs_between_hosts() {
    assert_ne!(generate_id(MAC, b"myhost\n"), generate_id(MAC, b"other\n"));
    assert_ne!(generate_id(MAC, b"myhost\n"), generate_id([0; 6], b"myhost\n"));
}

#[test]
fn lower_hex_two_digits_per_byte() {
    assert_eq!(lower_hex(&[0x00, 0xff, 0x0a, 0xb7]), "00ff0ab7");
    assert_eq!(lower_hex(&[]), "");
}
