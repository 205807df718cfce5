//! Bytes: hexadecimal text, random bytes, digests and sealed messages.

use vstd::prelude::*;

verus! {

/// The lower-case hexadecimal digit for `d` (below sixteen).
pub open spec fn hex_digit(d: nat) -> char {
    if d < 10 {
        ('0' as nat + d) as char
    } else {
        ('a' as nat + d - 10) as char
    }
}

/// Bytes as lower-case hexadecimal text, two digits a byte.
pub open spec fn hexed(bytes: Seq<u8>) -> Seq<char> {
    Seq::new(
        2 * bytes.len(),
        |i: int| if i % 2 == 0 {
            hex_digit((bytes[i / 2] / 16) as nat)
        } else {
            hex_digit((bytes[i / 2] % 16) as nat)
        },
    )
}

/// What a hexadecimal digit, of either case, stands for.
pub open spec fn hex_value(c: char) -> Option<u8> {
    if '0' <= c <= '9' {
        Some((c as u32 - '0' as u32) as u8)
    } else if 'a' <= c <= 'f' {
        Some((c as u32 - 'a' as u32 + 10) as u8)
    } else if 'A' <= c <= 'F' {
        Some((c as u32 - 'A' as u32 + 10) as u8)
    } else {
        None
    }
}

/// Whole bytes in hexadecimal.
pub open spec fn is_hex(text: Seq<char>) -> bool {
    text.len() % 2 == 0 && forall|i: int| 0 <= i < text.len() ==> hex_value(#[trigger] text[i]) is Some
}

/// The bytes that hexadecimal text spells.
pub open spec fn unhexed(text: Seq<char>) -> Seq<u8> {
    Seq::new(
        text.len() / 2,
        |i: int| (hex_value(text[2 * i])->0 * 16 + hex_value(text[2 * i + 1])->0) as u8,
    )
}

/// `hex::encode`: two lower-case digits for each byte.
#[verifier::external_body]
pub(crate) fn hex_encode(bytes: &[u8]) -> (r: String)
    ensures
        r@ == hexed(bytes@),
{
    hex::encode(bytes)
}

/// `hex::decode`: the bytes an even number of digits, of either case, spells;
/// nothing for any other text.
#[verifier::external_body]
pub(crate) fn hex_decode(text: &str) -> (r: Option<Vec<u8>>)
    ensures
        match r {
            Some(bytes) => is_hex(text@) && bytes@ == unhexed(text@),
            None => !is_hex(text@),
        },
{
    hex::decode(text).ok()
}

/// `rand::random`: thirty-two bytes from the thread's generator. Nothing more
/// is claimed of them.
#[verifier::external_body]
fn random_block() -> (r: Vec<u8>)
    ensures
        r@.len() == 32,
{
    rand::random::<[u8; 32]>().to_vec()
}

/// `n` random bytes.
pub(crate) fn random_bytes(n: usize) -> (r: Vec<u8>)
    requires
        n <= 32,
    ensures
        r@.len() == n,
{
    let mut block = random_block();
    block.truncate(n);
    block
}

/// `head` followed by `tail`.
pub fn join_bytes(head: &[u8], tail: &[u8]) -> (r: Vec<u8>)
    ensures
        r@ == head@ + tail@,
{
    let mut out = copy_bytes(head, 0, head.len());
    let mut i: usize = 0;
    while i < tail.len()
        invariant
            i <= tail@.len(),
            out@ == head@ + tail@.take(i as int),
        decreases tail@.len() - i,
    {
        out.push(tail[i]);
        assert(out@ =~= head@ + tail@.take(i + 1));
        i += 1;
    }
    assert(tail@.take(i as int) =~= tail@);
    out
}

/// The bytes from `from` up to `to`.
pub fn copy_bytes(bytes: &[u8], from: usize, to: usize) -> (r: Vec<u8>)
    requires
        from <= to <= bytes@.len(),
    ensures
        r@ == bytes@.subrange(from as int, to as int),
        from == 0 && to == bytes@.len() ==> r@ == bytes@,
{
    let mut out: Vec<u8> = Vec::new();
    let mut i: usize = from;
    while i < to
        invariant
            from <= i <= to <= bytes@.len(),
            out@ == bytes@.subrange(from as int, i as int),
        decreases to - i,
    {
        out.push(bytes[i]);
        assert(out@ =~= bytes@.subrange(from as int, i + 1));
        i += 1;
    }
    assert(bytes@.subrange(0, bytes@.len() as int) =~= bytes@);
    out
}

/// The UTF-8 bytes of a text.
pub fn text_bytes(text: &str) -> (r: Vec<u8>)
    ensures
        r@ == vstd::utf8::encode_utf8(text@),
{
    let bytes = text.as_bytes();
    let mut out: Vec<u8> = Vec::new();
    let mut i: usize = 0;
    while i < bytes.len()
        invariant
            i <= bytes@.len(),
            bytes@ == vstd::utf8::encode_utf8(text@),
            out@ == bytes@.take(i as int),
        decreases bytes@.len() - i,
    {
        out.push(bytes[i]);
        assert(out@ =~= bytes@.take(i + 1));
        i += 1;
    }
    assert(bytes@.take(i as int) =~= bytes@);
    out
}

/// The key that PBKDF2 with HMAC-SHA-256 stretches a password to.
pub uninterp spec fn stretched(password: Seq<u8>, salt: Seq<u8>, rounds: u32) -> Seq<u8>;

/// `pbkdf2::pbkdf2_hmac` over `sha2::Sha256`, for a key of thirty-two bytes: a
/// function of its arguments alone.
#[verifier::external_body]
pub(crate) fn stretch_key(password: &[u8], salt: &[u8], rounds: u32) -> (r: Vec<u8>)
    ensures
        r@ == stretched(password@, salt@, rounds),
        r@.len() == 32,
{
    let mut key = [0u8; 32];
    pbkdf2::pbkdf2_hmac::<sha2::Sha256>(password, salt, rounds, &mut key);
    key.to_vec()
}

/// What XChaCha20-Poly1305 makes of a message and its associated data.
pub uninterp spec fn sealed(
    key: Seq<u8>,
    nonce: Seq<u8>,
    message: Seq<u8>,
    aad: Seq<u8>,
) -> Option<Seq<u8>>;

/// The message XChaCha20-Poly1305 finds behind a ciphertext, when its tag
/// holds for the associated data.
pub uninterp spec fn opened(
    key: Seq<u8>,
    nonce: Seq<u8>,
    ciphertext: Seq<u8>,
    aad: Seq<u8>,
) -> Option<Seq<u8>>;

/// The longest message one nonce can seal, in bytes, plus one: the cipher's
/// block counter has one block less left than it can count, since the first
/// went into the tag's key.
pub const SEAL_LIMIT: u64 = 274_877_906_817;

/// `XChaCha20Poly1305::encrypt` of the `chacha20poly1305` crate: a function of
/// its arguments alone. A message below the limit is sealed into sixteen bytes
/// more than it has, and opens again under the same key, nonce and data. A
/// longer one would run past the end of the keystream and panic.
#[verifier::external_body]
pub(crate) fn seal(
    key: &[u8],
    nonce: &[u8],
    message: &[u8],
    aad: &[u8],
) -> (r: Option<Vec<u8>>)
    requires
        key@.len() == 32,
        nonce@.len() == 24,
        message@.len() < SEAL_LIMIT,
    ensures
        r is Some,
        sealed(key@, nonce@, message@, aad@) == Some(r->0@),
        r->0@.len() == message@.len() + 16,
        opened(key@, nonce@, r->0@, aad@) == Some(message@),
{
    let cipher = <chacha20poly1305::XChaCha20Poly1305 as chacha20poly1305::KeyInit>::new_from_slice(key).ok()?;
    let payload = chacha20poly1305::aead::Payload { msg: message, aad };
    let nonce = chacha20poly1305::XNonce::from_slice(nonce);
    chacha20poly1305::aead::Aead::encrypt(&cipher, nonce, payload).ok()
}

/// `XChaCha20Poly1305::decrypt` of the `chacha20poly1305` crate: a function of
/// its arguments alone, which finds nothing in a text too short for a tag and
/// otherwise a message sixteen bytes shorter. A text of a message past the limit
/// would run past the end of the keystream and panic. That another key, nonce or
/// data finds nothing is only overwhelmingly likely, and is not claimed.
#[verifier::external_body]
pub(crate) fn unseal(
    key: &[u8],
    nonce: &[u8],
    ciphertext: &[u8],
    aad: &[u8],
) -> (r: Option<Vec<u8>>)
    requires
        key@.len() == 32,
        nonce@.len() == 24,
        ciphertext@.len() < SEAL_LIMIT + 16,
    ensures
        match r {
            Some(m) => opened(key@, nonce@, ciphertext@, aad@) == Some(m@) && ciphertext@.len()
                == m@.len() + 16,
            None => opened(key@, nonce@, ciphertext@, aad@) is None,
        },
        ciphertext@.len() < 16 ==> r is None,
{
    let cipher = <chacha20poly1305::XChaCha20Poly1305 as chacha20poly1305::KeyInit>::new_from_slice(key).ok()?;
    let payload = chacha20poly1305::aead::Payload { msg: ciphertext, aad };
    let nonce = chacha20poly1305::XNonce::from_slice(nonce);
    chacha20poly1305::aead::Aead::decrypt(&cipher, nonce, payload).ok()
}

/// The SHA-256 digest of some bytes.
pub uninterp spec fn digested(bytes: Seq<u8>) -> Seq<u8>;

/// `sha2::Sha256::digest`: thirty-two bytes, a function of its argument alone.
#[verifier::external_body]
pub(crate) fn digest(bytes: &[u8]) -> (r: Vec<u8>)
    ensures
        r@ == digested(bytes@),
        r@.len() == 32,
{
    <sha2::Sha256 as sha2::Digest>::digest(bytes).to_vec()
}

/// Five groups of hexadecimal digits between four hyphens.
pub open spec fn hyphenated(s: Seq<char>) -> bool {
    s.len() == 36 && forall|i: int|
        0 <= i < 36 ==> if i == 8 || i == 13 || i == 18 || i == 23 {
            #[trigger] s[i] == '-'
        } else {
            hex_value(s[i]) is Some
        }
}

/// The text of a UUID: plain, hyphenated, in braces or as a URN.
pub open spec fn is_uuid(s: Seq<char>) -> bool {
    ||| s.len() == 32 && forall|i: int| 0 <= i < 32 ==> hex_value(#[trigger] s[i]) is Some
    ||| hyphenated(s)
    ||| s.len() == 38 && s[0] == '{' && s[37] == '}' && hyphenated(s.subrange(1, 37))
    ||| s.len() == 45 && crate::text::lowered_ascii(s.take(9)) == "urn:uuid:"@ && hyphenated(
        s.skip(9),
    )
}

/// `uuid::Uuid::parse_str`: whether it accepts the text, which it does for the
/// four forms of a UUID in digits of either case.
#[verifier::external_body]
pub(crate) fn parses_as_uuid(text: &str) -> (r: bool)
    ensures
        r == is_uuid(text@),
{
    uuid::Uuid::parse_str(text).is_ok()
}

/// `uuid::Uuid::new_v4`, as text: a random UUID in its hyphenated form.
#[verifier::external_body]
pub(crate) fn fresh_uuid() -> (r: String)
    ensures
        hyphenated(r@),
{
    uuid::Uuid::new_v4().to_string()
}

/// Whether two byte strings are the same.
pub fn same_bytes(a: &[u8], b: &[u8]) -> (r: bool)
    ensures
        r == (a@ == b@),
{
    if a.len() != b.len() {
        return false;
    }
    let mut i: usize = 0;
    while i < a.len()
        invariant
            i <= a@.len() == b@.len(),
            a@.take(i as int) == b@.take(i as int),
        decreases a@.len() - i,
    {
        if a[i] != b[i] {
            return false;
        }
        assert(a@.take(i + 1) =~= b@.take(i + 1));
        i += 1;
    }
    assert(a@.take(i as int) =~= a@);
    assert(b@.take(i as int) =~= b@);
    true
}

/// Bytes are joined, cut and compared one by one.
pub proof fn law_bytes_are_kept(
    head: &[u8],
    tail: &[u8],
    from: usize,
    to: usize,
    joined: Vec<u8>,
    cut: Vec<u8>,
    same: bool,
    text: &str,
    encoded: Vec<u8>,
    i: int,
)
    requires
        from <= to <= head@.len(),
        call_ensures(join_bytes, (head, tail), joined),
        call_ensures(copy_bytes, (head, from, to), cut),
        call_ensures(same_bytes, (head, tail), same),
        call_ensures(text_bytes, (text,), encoded),
    ensures
        joined@.len() == head@.len() + tail@.len(),
        0 <= i < head@.len() ==> joined@[i] == head@[i],
        0 <= i < tail@.len() ==> joined@[head@.len() + i] == tail@[i],
        cut@.len() == to - from,
        0 <= i < to - from ==> cut@[i] == head@[from + i],
        same ==> head@.len() == tail@.len() && (0 <= i < head@.len() ==> head@[i] == tail@[i]),
        head@ == tail@ ==> same,
        encoded@ == vstd::utf8::encode_utf8(text@),
{
}

/// Each byte is written as two digits, the high half first, in lower case, and
/// is read back from them.
pub proof fn law_bytes_are_written_as_two_digits(bytes: Seq<u8>, i: int)
    requires
        0 <= i < bytes.len(),
    ensures
        hexed(bytes).len() == 2 * bytes.len(),
        bytes[i] / 16 < 10 ==> hexed(bytes)[2 * i] as u32 == 48 + bytes[i] / 16,
        bytes[i] / 16 >= 10 ==> hexed(bytes)[2 * i] as u32 == 87 + bytes[i] / 16,
        bytes[i] % 16 < 10 ==> hexed(bytes)[2 * i + 1] as u32 == 48 + bytes[i] % 16,
        bytes[i] % 16 >= 10 ==> hexed(bytes)[2 * i + 1] as u32 == 87 + bytes[i] % 16,
        unhexed(hexed(bytes))[i] == bytes[i],
{
    assert((2 * i) / 2 == i && (2 * i) % 2 == 0);
    assert((2 * i + 1) / 2 == i && (2 * i + 1) % 2 == 1);
}

} // verus!
