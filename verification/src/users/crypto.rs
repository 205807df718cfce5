//! Token-blob encryption for the credential store.
//!
//! Blobs are self-describing: a leading version byte selects the scheme. The
//! ciphertext is bound to its owner by associated data, so that one user's
//! ciphertext cannot stand in another's row. When a key is configured,
//! plaintext blobs are rejected (no silent downgrade).

use vstd::prelude::*;

use crate::bytes::{
    copy_bytes, join_bytes, random_bytes, seal, stretch_key, text_bytes, unseal, SEAL_LIMIT,
};

verus! {

/// Version byte of a blob that is not encrypted.
pub const V_PLAIN: u8 = 0x00;

/// Version byte of XChaCha20-Poly1305 with owner-bound associated data.
pub const V_XCHACHA_AAD: u8 = 0x02;

pub const NONCE_LEN: usize = 24;

/// Rounds that stretch the configured key. Salt and rounds are part of the
/// storage format: changing either changes every derived key.
pub const KDF_ITERATIONS: u32 = 600_000;

/// Fixed application salt for stretching the configured key.
pub open spec fn kdf_salt() -> Seq<u8> {
    vstd::utf8::encode_utf8("discord-spotify-player:token-enc:v1"@)
}

/// How blobs are stored: as they are, or sealed under a derived key.
pub struct TokenCipher {
    key: Option<Vec<u8>>,
}

impl TokenCipher {
    /// The derived key, if blobs are sealed.
    pub closed spec fn key(&self) -> Option<Seq<u8>> {
        match self.key {
            Some(k) => Some(k@),
            None => None,
        }
    }

    pub open spec fn wf(&self) -> bool {
        self.key() matches Some(k) ==> k.len() == 32
    }

    /// The key a configured text derives; none for no text.
    pub open spec fn derived(configured: Option<Seq<char>>, rounds: u32) -> Option<Seq<u8>> {
        match configured {
            Some(text) => if text.len() > 0 {
                Some(
                    crate::bytes::stretched(vstd::utf8::encode_utf8(text), kdf_salt(), rounds),
                )
            } else {
                None
            },
            None => None,
        }
    }

    /// What a blob opens to for an owner.
    pub open spec fn opens(&self, blob: Seq<u8>, aad: Seq<u8>) -> Option<Seq<u8>> {
        match self.key() {
            None => if blob.len() > 0 && blob[0] == V_PLAIN {
                Some(blob.skip(1))
            } else {
                None
            },
            Some(key) => if blob.len() >= 1 + NONCE_LEN + 16 && blob[0] == V_XCHACHA_AAD
                && blob.len() - 1 - NONCE_LEN < SEAL_LIMIT + 16 {
                crate::bytes::opened(
                    key,
                    blob.subrange(1, 1 + NONCE_LEN),
                    blob.skip(1 + NONCE_LEN),
                    aad,
                )
            } else {
                None
            },
        }
    }

    /// `blob` is a form in which this cipher stores `plaintext` for an owner:
    /// the version byte, then the text itself or a nonce and the ciphertext
    /// under it.
    pub open spec fn sealed_for(&self, blob: Seq<u8>, plaintext: Seq<u8>, aad: Seq<u8>) -> bool {
        match self.key() {
            None => blob == seq![V_PLAIN] + plaintext,
            Some(key) => {
                &&& blob.len() == 1 + NONCE_LEN + plaintext.len() + 16
                &&& blob[0] == V_XCHACHA_AAD
                &&& crate::bytes::sealed(key, blob.subrange(1, 1 + NONCE_LEN), plaintext, aad)
                    == Some(blob.skip(1 + NONCE_LEN))
            },
        }
    }

    /// Build a cipher from the optional `TOKEN_ENC_KEY`. Any string works; it
    /// is stretched to a key, so length isn't constrained. Absent or empty:
    /// plaintext blobs.
    pub fn new(key: Option<&str>) -> (r: Self)
        ensures
            r.wf(),
            r.key() == TokenCipher::derived(
                (match key {
                    Some(k) => Some(k@),
                    None => None,
                }),
                KDF_ITERATIONS,
            ),
    {
        TokenCipher::with_iterations(key, KDF_ITERATIONS)
    }

    /// A cipher whose key is stretched by this many rounds.
    pub fn with_iterations(key: Option<&str>, rounds: u32) -> (r: Self)
        ensures
            r.wf(),
            r.key() == TokenCipher::derived(
                (match key {
                    Some(k) => Some(k@),
                    None => None,
                }),
                rounds,
            ),
    {
        match key {
            Some(k) => {
                if k.is_empty() {
                    return TokenCipher { key: None };
                }
                // Stretched so that a weak key is costly to guess from a
                // stolen database.
                let salt = text_bytes("discord-spotify-player:token-enc:v1");
                TokenCipher { key: Some(stretch_key(text_bytes(k).as_slice(), salt.as_slice(), rounds)) }
            },
            None => TokenCipher { key: None },
        }
    }

    pub fn is_encrypted(&self) -> (r: bool)
        ensures
            r == self.key() is Some,
    {
        self.key.is_some()
    }

    /// Seal plaintext into a versioned blob, binding it to `aad` (the owner
    /// id).
    pub fn seal(&self, plaintext: &[u8], aad: &[u8]) -> (r: Vec<u8>)
        requires
            self.wf(),
            plaintext@.len() < SEAL_LIMIT,
        ensures
            self.sealed_for(r@, plaintext@, aad@),
            self.opens(r@, aad@) == Some(plaintext@),
    {
        let nonce = random_bytes(NONCE_LEN);
        self.seal_with(plaintext, aad, nonce.as_slice())
    }

    /// Seal under a given nonce, which must never be used twice under one key
    /// for different messages.
    pub fn seal_with(&self, plaintext: &[u8], aad: &[u8], nonce: &[u8]) -> (r: Vec<u8>)
        requires
            self.wf(),
            plaintext@.len() < SEAL_LIMIT,
            nonce@.len() == NONCE_LEN,
        ensures
            self.sealed_for(r@, plaintext@, aad@),
            self.key() is Some ==> r@.subrange(1, 1 + NONCE_LEN) == nonce@,
            self.opens(r@, aad@) == Some(plaintext@),
    {
        let mut version: Vec<u8> = Vec::new();
        match &self.key {
            None => {
                version.push(V_PLAIN);
                let out = join_bytes(version.as_slice(), plaintext);
                proof {
                    assert(version@ =~= seq![V_PLAIN]);
                    assert(out@.skip(1) =~= plaintext@);
                }
                out
            },
            Some(key) => {
                version.push(V_XCHACHA_AAD);
                let body = match seal(key.as_slice(), nonce, plaintext, aad) {
                    Some(c) => c,
                    None => Vec::new(),
                };
                let head = join_bytes(version.as_slice(), nonce);
                let out = join_bytes(head.as_slice(), body.as_slice());
                proof {
                    assert(out@.subrange(1, 1 + NONCE_LEN) =~= nonce@);
                    assert(out@.skip(1 + NONCE_LEN) =~= body@);
                }
                out
            },
        }
    }

    /// Open a stored blob, verifying it was sealed for this `aad` (owner id).
    /// Returns `None` on a truncated or endless blob, a bad tag, an owner mismatch, an
    /// encrypted row with no or the wrong key, or a plaintext row when a key
    /// is set.
    pub fn open(&self, blob: &[u8], aad: &[u8]) -> (r: Option<Vec<u8>>)
        requires
            self.wf(),
        ensures
            self.opens(blob@, aad@) == (match r {
                Some(plain) => Some(plain@),
                None => None,
            }),
            self.key() is Some && blob@.len() < 1 + NONCE_LEN + 16 ==> r is None,
    {
        if blob.len() == 0 {
            return None;
        }
        match &self.key {
            None => {
                // A plaintext row is only legitimate when no key is
                // configured.
                if blob[0] != V_PLAIN {
                    return None;
                }
                let rest = copy_bytes(blob, 1, blob.len());
                assert(rest@ =~= blob@.skip(1));
                Some(rest)
            },
            Some(key) => {
                if blob[0] != V_XCHACHA_AAD || blob.len() < 1 + NONCE_LEN {
                    return None;
                }
                // Nothing this long was ever sealed.
                if (blob.len() - 1 - NONCE_LEN) as u64 >= SEAL_LIMIT + 16 {
                    return None;
                }
                let nonce = copy_bytes(blob, 1, 1 + NONCE_LEN);
                let body = copy_bytes(blob, 1 + NONCE_LEN, blob.len());
                assert(body@ =~= blob@.skip(1 + NONCE_LEN));
                unseal(key.as_slice(), nonce.as_slice(), body.as_slice(), aad)
            },
        }
    }
}

/// No downgrade and no mix-up of schemes: under a key, a blob that was stored
/// without one opens to nothing, and the reverse.
pub proof fn law_schemes_do_not_mix(
    keyed: TokenCipher,
    plain: TokenCipher,
    blob: Seq<u8>,
    plaintext: Seq<u8>,
    aad: Seq<u8>,
)
    requires
        keyed.key() is Some,
        plain.key() is None,
    ensures
        plain.sealed_for(blob, plaintext, aad) ==> keyed.opens(blob, aad) is None,
        keyed.sealed_for(blob, plaintext, aad) ==> plain.opens(blob, aad) is None,
{
}

/// A blob without a known version byte, or too short for a nonce and a tag,
/// opens to nothing; so does every cut of a sealed blob to such a length.
pub proof fn law_malformed_blobs_open_to_nothing(cipher: TokenCipher, blob: Seq<u8>, aad: Seq<u8>)
    requires
        blob.len() == 0 || (blob[0] != V_PLAIN && blob[0] != V_XCHACHA_AAD) || (blob[0]
            == V_XCHACHA_AAD && blob.len() < 1 + NONCE_LEN + 16),
    ensures
        cipher.opens(blob, aad) is None,
{
}

/// No key, or an empty one, stores blobs in the open. Any other is stretched
/// over six hundred thousand rounds under the application's own salt.
pub proof fn law_keys_are_stretched(
    key: Option<&str>,
    rounds: u32,
    cipher: TokenCipher,
    other: TokenCipher,
    encrypted: bool,
)
    requires
        call_ensures(TokenCipher::new, (key,), cipher),
        call_ensures(TokenCipher::with_iterations, (key, rounds), other),
        call_ensures(TokenCipher::is_encrypted, (&cipher,), encrypted),
    ensures
        key is None ==> cipher.key() is None && other.key() is None && !encrypted,
        key matches Some(text) ==> text@.len() == 0 ==> cipher.key() is None && other.key()
            is None && !encrypted,
        key matches Some(text) ==> text@.len() > 0 ==> {
            let salt = vstd::utf8::encode_utf8("discord-spotify-player:token-enc:v1"@);
            let password = vstd::utf8::encode_utf8(text@);
            &&& cipher.key() == Some(crate::bytes::stretched(password, salt, 600_000))
            &&& other.key() == Some(crate::bytes::stretched(password, salt, rounds))
            &&& encrypted
        },
{
}

/// Without a key a blob is a zero byte and the text. With one it is a two, a
/// nonce of twenty-four bytes, and what the cipher makes of the text for the
/// owner under that nonce.
pub proof fn law_blobs_say_how_they_are_stored(
    cipher: TokenCipher,
    blob: Seq<u8>,
    plaintext: Seq<u8>,
    aad: Seq<u8>,
)
    ensures
        cipher.key() is None ==> {
            &&& cipher.sealed_for(blob, plaintext, aad) <==> blob =~= seq![0u8] + plaintext
            &&& cipher.opens(seq![0u8] + plaintext, aad) == Some(plaintext)
            &&& blob.len() == 0 || blob[0] != 0 ==> cipher.opens(blob, aad) is None
        },
        cipher.key() matches Some(key) ==> {
            &&& cipher.sealed_for(blob, plaintext, aad) <==> blob.len() == plaintext.len() + 41
                && blob[0] == 2 && crate::bytes::sealed(
                key,
                blob.subrange(1, 25),
                plaintext,
                aad,
            ) == Some(blob.skip(25))
            &&& 41 <= blob.len() < 274_877_906_858 && blob[0] == 2 ==> cipher.opens(blob, aad)
                == crate::bytes::opened(key, blob.subrange(1, 25), blob.skip(25), aad)
            &&& blob.len() < 41 || blob.len() >= 274_877_906_858 || blob[0] != 2 ==> cipher.opens(
                blob,
                aad,
            ) is None
        },
{
    assert((seq![0u8] + plaintext).skip(1) =~= plaintext);
    assert(seq![V_PLAIN] =~= seq![0u8]);
}

/// What is sealed for an owner opens for that owner, under whichever nonce.
pub proof fn law_sealed_blobs_open_for_their_owner(
    cipher: TokenCipher,
    plaintext: &[u8],
    aad: &[u8],
    nonce: &[u8],
    blob: Vec<u8>,
    stored: &[u8],
    opened: Option<Vec<u8>>,
)
    requires
        call_ensures(TokenCipher::seal, (&cipher, plaintext, aad), blob) || call_ensures(
            TokenCipher::seal_with,
            (&cipher, plaintext, aad, nonce),
            blob,
        ),
        stored@ == blob@,
        call_ensures(TokenCipher::open, (&cipher, stored, aad), opened),
    ensures
        opened matches Some(plain) && plain@ == plaintext@,
        cipher.key() is None ==> blob@ =~= seq![0u8] + plaintext@,
        cipher.key() is Some ==> blob@.len() == plaintext@.len() + 41 && blob@[0] == 2,
        cipher.key() is Some && call_ensures(
            TokenCipher::seal_with,
            (&cipher, plaintext, aad, nonce),
            blob,
        ) ==> blob@.subrange(1, 25) == nonce@,
{
    law_blobs_say_how_they_are_stored(cipher, blob@, plaintext@, aad@);
}

} // verus!
