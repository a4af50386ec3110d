//! The host identity: a SHA-256 digest of the host's hardware address and
//! name, written as lower-case hexadecimal.

use vstd::prelude::*;
use vstd::string::*;
use crate::text::{push_all, push_char};

verus! {

/// The lower-case hexadecimal digits, by value.
pub open spec fn lower_digits() -> Seq<char> {
    seq!['0', '1', '2', '3', '4', '5', '6', '7', '8', '9', 'a', 'b', 'c', 'd', 'e', 'f']
}

/// The upper-case hexadecimal digits, by value.
pub open spec fn upper_digits() -> Seq<char> {
    seq!['0', '1', '2', '3', '4', '5', '6', '7', '8', '9', 'A', 'B', 'C', 'D', 'E', 'F']
}

/// One byte as two digits taken from `digits`, the high half first.
pub open spec fn byte_digits(digits: Seq<char>, b: u8) -> Seq<char> {
    seq![digits[(b / 16) as int], digits[(b % 16) as int]]
}

/// Bytes as lower-case hexadecimal, two digits per byte, in order.
pub open spec fn hex_lower(b: Seq<u8>) -> Seq<char>
    decreases b.len(),
{
    if b.len() == 0 {
        Seq::empty()
    } else {
        hex_lower(b.drop_last()) + byte_digits(lower_digits(), b.last())
    }
}

/// A six-byte hardware address as `XX:XX:XX:XX:XX:XX`, upper-case.
pub open spec fn mac_text_of(m: Seq<u8>) -> Seq<char> {
    byte_digits(upper_digits(), m[0]) + seq![':'] + byte_digits(upper_digits(), m[1]) + seq![':']
        + byte_digits(upper_digits(), m[2]) + seq![':'] + byte_digits(upper_digits(), m[3])
        + seq![':'] + byte_digits(upper_digits(), m[4]) + seq![':'] + byte_digits(
        upper_digits(),
        m[5],
    )
}

/// The SHA-256 digest of the UTF-8 encoding of `s`.
pub uninterp spec fn sha256_of(s: Seq<char>) -> Seq<u8>;

/// The text of `b`, with each invalid UTF-8 sequence replaced by U+FFFD.
pub uninterp spec fn lossy_text_of(b: Seq<u8>) -> Seq<char>;

/// Whether `c` has the Unicode White_Space property.
pub open spec fn is_white_space(c: char) -> bool {
    ('\u{9}' <= c && c <= '\u{d}') || c == ' ' || c == '\u{85}' || c == '\u{a0}' || c
        == '\u{1680}' || ('\u{2000}' <= c && c <= '\u{200a}') || c == '\u{2028}' || c
        == '\u{2029}' || c == '\u{202f}' || c == '\u{205f}' || c == '\u{3000}'
}

/// `s` without its leading white space.
pub open spec fn trim_start_of(s: Seq<char>) -> Seq<char>
    decreases s.len(),
{
    if s.len() > 0 && is_white_space(s[0]) {
        trim_start_of(s.drop_first())
    } else {
        s
    }
}

/// `s` without its trailing white space.
pub open spec fn trim_end_of(s: Seq<char>) -> Seq<char>
    decreases s.len(),
{
    if s.len() > 0 && is_white_space(s.last()) {
        trim_end_of(s.drop_last())
    } else {
        s
    }
}

/// `s` without leading and trailing white space.
pub open spec fn trimmed_of(s: Seq<char>) -> Seq<char> {
    trim_end_of(trim_start_of(s))
}

/// The text that identifies a host: its address, a dash, and its name as the
/// `hostname` command printed it, trimmed.
pub open spec fn identifier_of(mac: Seq<u8>, hostname_output: Seq<u8>) -> Seq<char> {
    mac_text_of(mac) + seq!['-'] + trimmed_of(lossy_text_of(hostname_output))
}

/// The identity of a host.
pub open spec fn identity_of(mac: Seq<u8>, hostname_output: Seq<u8>) -> Seq<char> {
    hex_lower(sha256_of(identifier_of(mac, hostname_output)))
}

/// Relies on mac_address's `Display` for `MacAddress`: each of the six bytes
/// as two upper-case hex digits (`{:02X}`), joined by ':'.
#[verifier::external_body]
fn mac_text(bytes: [u8; 6]) -> (r: String)
    ensures
        r@ == mac_text_of(bytes@),
{
    mac_address::MacAddress::new(bytes).to_string()
}

/// Relies on sha2's `Sha256::digest` over the UTF-8 bytes of `s`, whose
/// output is 32 bytes long.
#[verifier::external_body]
fn sha256_digest(s: &str) -> (r: Vec<u8>)
    ensures
        r@ == sha256_of(s@),
        r@.len() == 32,
{
    <sha2::Sha256 as sha2::Digest>::digest(s.as_bytes()).to_vec()
}

/// Relies on `String::from_utf8_lossy`: the text of the bytes, with invalid
/// sequences replaced; it depends on the bytes alone.
#[verifier::external_body]
fn decode_lossy(b: &[u8]) -> (r: String)
    ensures
        r@ == lossy_text_of(b@),
{
    String::from_utf8_lossy(b).into_owned()
}

/// Relies on `str::trim`: the text without leading and trailing white space,
/// where white space is the Unicode White_Space property (`char::is_whitespace`).
#[verifier::external_body]
fn trim_text(s: &str) -> (r: String)
    ensures
        r@ == trimmed_of(s@),
{
    s.trim().to_string()
}

/// The hexadecimal digit of a value below 16.
fn digit(digits: &[char; 16], n: u8) -> (c: char)
    requires
        n < 16,
    ensures
        c == digits@[n as int],
{
    digits[n as usize]
}

/// Bytes as lower-case hexadecimal, two digits per byte.
pub fn lower_hex(b: &[u8]) -> (r: String)
    requires
        b@.len() < usize::MAX,
    ensures
        r@ == hex_lower(b@),
{
    let digits: [char; 16] = ['0', '1', '2', '3', '4', '5', '6', '7', '8', '9', 'a', 'b', 'c', 'd', 'e', 'f'];
    assert(digits@ =~= lower_digits());
    let mut r = String::new();
    let mut i: usize = 0;
    while i < b.len()
        invariant
            i <= b@.len(),
            digits@ == lower_digits(),
            r@ == hex_lower(b@.subrange(0, i as int)),
        decreases b@.len() - i,
    {
        let x = b[i];
        push_char(&mut r, digit(&digits, x / 16));
        push_char(&mut r, digit(&digits, x % 16));
        proof {
            let p = b@.subrange(0, i + 1 as int);
            assert(p.drop_last() =~= b@.subrange(0, i as int));
            assert(p.last() == x);
        }
        i = i + 1;
        assert(r@ =~= hex_lower(b@.subrange(0, i as int)));
    }
    assert(b@.subrange(0, b@.len() as int) =~= b@);
    r
}

/// The text that identifies a host, from its six-byte hardware address and
/// what the `hostname` command wrote to its standard output.
pub fn host_identifier(mac: [u8; 6], hostname_output: &[u8]) -> (r: String)
    ensures
        r@ == identifier_of(mac@, hostname_output@),
{
    let mut r = mac_text(mac);
    push_char(&mut r, '-');
    let name = trim_text(decode_lossy(hostname_output).as_str());
    push_all(&mut r, name.as_str());
    r
}

/// The identity of the host with this hardware address and this output of the
/// `hostname` command: the lower-case hexadecimal SHA-256 digest of
/// [`host_identifier`].
pub fn generate_id(mac: [u8; 6], hostname_output: &[u8]) -> (r: String)
    ensures
        r@ == identity_of(mac@, hostname_output@),
        r@.len() == 64,
{
    let ident = host_identifier(mac, hostname_output);
    let digest = sha256_digest(ident.as_str());
    let r = lower_hex(digest.as_slice());
    proof {
        lemma_hex_lower_len(digest@);
    }
    r
}

/// Hexadecimal text has two digits per byte.
pub proof fn lemma_hex_lower_len(b: Seq<u8>)
    ensures
        hex_lower(b).len() == 2 * b.len(),
    decreases b.len(),
{
    if b.len() > 0 {
        lemma_hex_lower_len(b.drop_last());
    }
}

/// Every character of hexadecimal text is a lower-case hexadecimal digit.
pub proof fn lemma_hex_lower_digits(b: Seq<u8>)
    ensures
        forall|i: int| 0 <= i < hex_lower(b).len() ==> lower_digits().contains(#[trigger] hex_lower(b)[i]),
    decreases b.len(),
{
    if b.len() > 0 {
        lemma_hex_lower_digits(b.drop_last());
        let x = b.last();
        let h = hex_lower(b.drop_last());
        let t = byte_digits(lower_digits(), x);
        assert(lower_digits()[(x / 16) as int] == t[0]);
        assert(lower_digits()[(x % 16) as int] == t[1]);
        assert forall|i: int| 0 <= i < hex_lower(b).len() implies lower_digits().contains(
            #[trigger] hex_lower(b)[i],
        ) by {
            if i < h.len() {
                assert(hex_lower(b)[i] == h[i]);
            } else if i == h.len() {
                assert(hex_lower(b)[i] == t[0]);
            } else {
                assert(hex_lower(b)[i] == t[1]);
            }
        }
    }
}

/// The identity is stable: two reads of the same host, with the same hardware
/// address and a host name that trims to the same text, give the same string
/// of lower-case hexadecimal digits, two for each byte of the digest.
pub proof fn lemma_identity_stable(
    mac1: Seq<u8>,
    out1: Seq<u8>,
    mac2: Seq<u8>,
    out2: Seq<u8>,
)
    requires
        mac1 == mac2,
        trimmed_of(lossy_text_of(out1)) == trimmed_of(lossy_text_of(out2)),
    ensures
        identity_of(mac1, out1) == identity_of(mac2, out2),
        identity_of(mac1, out1).len() == 2 * sha256_of(identifier_of(mac1, out1)).len(),
        forall|i: int|
            0 <= i < identity_of(mac1, out1).len() ==> lower_digits().contains(
                #[trigger] identity_of(mac1, out1)[i],
            ),
{
    assert(identifier_of(mac1, out1) == identifier_of(mac2, out2));
    lemma_hex_lower_len(sha256_of(identifier_of(mac1, out1)));
    lemma_hex_lower_digits(sha256_of(identifier_of(mac1, out1)));
}

} // verus!
