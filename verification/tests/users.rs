//! Credential rows and their encryption.

use spotibot::users::crypto::{TokenCipher, NONCE_LEN, V_PLAIN, V_XCHACHA_AAD};
use spotibot::users::{
    credential_row, on_disk, row_to_creds, row_tokens, CredentialRow, RowTokens, UserCredentials,
};

const AAD: &[u8] = b"discord-user-123";

/// Few rounds keep the tests fast; the derivation is the same.
fn cipher(key: Option<&str>) -> TokenCipher {
    TokenCipher::with_iterations(key, 1_000)
}

fn creds(id: &str, active: bool) -> UserCredentials {
    UserCredentials {
        discord_user_id: id.to_string(),
        discord_name: "Achille".to_string(),
        spotify_username: "achille_sp".to_string(),
        access_token: "at".to_string(),
        refresh_token: "rt".to_string(),
        active,
    }
}

fn save(cipher: &TokenCipher, creds: &UserCredentials) -> CredentialRow {
    let tokens = format!("{}\n{}", creds.access_token, creds.refresh_token);
    credential_row(cipher, creds, tokens.as_bytes())
}

fn load(cipher: &TokenCipher, row: CredentialRow) -> Option<UserCredentials> {
    let RowTokens::Plain(plain) = row_tokens(cipher, &row) else {
        return None;
    };
    let text = String::from_utf8(plain).unwrap();
    let (access, refresh) = text.split_once('\n').unwrap();
    Some(row_to_creds(row, access.to_string(), refresh.to_string()))
}

#[test]
fn plaintext_roundtrip() {
    let c = cipher(None);
    let blob = c.seal(b"hello tokens", AAD);
    assert_eq!(blob[0], V_PLAIN);
    assert_eq!(c.open(&blob, AAD).as_deref(), Some(&b"hello tokens"[..]));
}

#[test]
fn encrypted_roundtrip() {
    let c = cipher(Some("a-long-random-key"));
    let blob = c.seal(b"secret tokens", AAD);
    assert_eq!(blob[0], V_XCHACHA_AAD);
    assert!(!blob.windows(6).any(|w| w == b"secret"));
    assert_eq!(c.open(&blob, AAD).as_deref(), Some(&b"secret tokens"[..]));
}

#[test]
fn encrypted_blob_needs_the_right_key() {
    let good = cipher(Some("key-one"));
    let blob = good.seal(b"secret", AAD);
    let wrong = cipher(Some("key-two"));
    assert!(wrong.open(&blob, AAD).is_none());
}

#[test]
fn ciphertext_is_bound_to_its_owner() {
    // A blob sealed for one user must not open under another's id.
    let c = cipher(Some("k"));
    let blob = c.seal(b"secret", b"user-A");
    assert!(c.open(&blob, b"user-B").is_none());
    assert_eq!(c.open(&blob, b"user-A").as_deref(), Some(&b"secret"[..]));
}

#[test]
fn encrypted_store_rejects_plaintext_downgrade() {
    // With a key set, a forged plaintext row must not be accepted.
    let plain_blob = cipher(None).seal(b"forged", AAD);
    let with_key = cipher(Some("new-key"));
    assert!(with_key.open(&plain_blob, AAD).is_none());
}

#[test]
fn nonce_is_random_per_seal() {
    let c = cipher(Some("k"));
    assert_ne!(c.seal(b"x", AAD), c.seal(b"x", AAD));
}

#[test]
fn malformed_blobs_open_to_none() {
    let c = cipher(Some("k"));
    // Empty blob: no version byte at all.
    assert!(c.open(&[], AAD).is_none());
    // Unknown version byte, the retired 0x01 scheme included.
    assert!(c.open(&[0x01, 1, 2, 3], AAD).is_none());
    assert!(c.open(&[0xFF], AAD).is_none());
    // Truncated: a valid version byte but fewer than NONCE_LEN bytes after.
    let mut truncated = vec![V_XCHACHA_AAD];
    truncated.extend_from_slice(&[0u8; NONCE_LEN - 1]);
    assert!(c.open(&truncated, AAD).is_none());
    let sealed = c.seal(b"", AAD);
    assert_eq!(sealed.len(), 1 + NONCE_LEN + 16);
    for len in 0..sealed.len() {
        assert!(c.open(&sealed[..len], AAD).is_none());
    }
    // Nonce present but ciphertext cut short of a whole tag.
    let sealed = c.seal(b"secret", AAD);
    assert!(c.open(&sealed[..sealed.len() - 1], AAD).is_none());
    // A keyless cipher must not accept encrypted rows.
    assert!(cipher(None).open(&sealed, AAD).is_none());
}

/// Pins the storage format end to end: every build must open this blob.
#[test]
fn golden_blob_still_opens() {
    let hex = "0218553551173e90b1f25cc3a8633cbd0de9e95a196b5127e17d1729b4a6ce132e34f39a805c0522d968d05028e94bf34faa22b6d6e2a0f815";
    let blob: Vec<u8> = (0..hex.len())
        .step_by(2)
        .map(|i| u8::from_str_radix(&hex[i..i + 2], 16).unwrap())
        .collect();
    let c = cipher(Some("golden-key"));
    assert_eq!(
        c.open(&blob, b"golden-user").as_deref(),
        Some(&b"golden-plaintext"[..]),
        "stored-format compatibility broken: deployed rows would no longer decrypt"
    );
}

#[test]
fn an_empty_key_stores_plaintext() {
    assert!(!TokenCipher::new(None).is_encrypted());
    assert!(!TokenCipher::new(Some("")).is_encrypted());
    assert!(cipher(Some("k")).is_encrypted());
}

#[test]
fn a_given_nonce_stands_behind_the_version_byte() {
    let c = cipher(Some("k"));
    let nonce: Vec<u8> = (0..24).collect();
    let blob = c.seal_with(b"x", AAD, &nonce);
    assert_eq!(blob[1..25], nonce[..]);
    assert_eq!(blob.len(), 1 + 24 + 1 + 16);
    assert_eq!(blob, c.seal_with(b"x", AAD, &nonce));
}

#[test]
fn save_then_load_roundtrips_tokens() {
    let c = cipher(None);
    let got = load(&c, save(&c, &creds("1", true))).unwrap();
    assert_eq!(got.access_token, "at");
    assert_eq!(got.refresh_token, "rt");
    assert!(got.active);
}

#[test]
fn tokens_are_encrypted_at_rest_with_a_key() {
    let c = cipher(Some("a-key"));
    let mut long = creds("1", true);
    long.access_token = "access-token-BQDx7".to_string();
    long.refresh_token = "refresh-token-AQCk3".to_string();
    let blob = save(&c, &long).auth_blob.unwrap();
    for token in [&long.access_token, &long.refresh_token] {
        assert!(!blob.windows(token.len()).any(|w| w == token.as_bytes()));
    }
    // The store still decrypts it.
    let row = save(&c, &creds("1", true));
    assert_eq!(load(&c, row).unwrap().access_token, "at");
}

#[test]
fn a_stored_row_reads_back() {
    for (key, version) in [(None, V_PLAIN), (Some("a-key"), V_XCHACHA_AAD)] {
        let c = cipher(key);
        let row = credential_row(&c, &creds("1", true), b"some tokens");
        assert_eq!(row.auth_blob.as_ref().unwrap()[0], version);
        match row_tokens(&c, &row) {
            RowTokens::Plain(plain) => assert_eq!(plain, b"some tokens"),
            _ => panic!("the row is readable"),
        }
        let got = row_to_creds(row, "at".into(), "rt".into());
        assert_eq!((got.discord_user_id.as_str(), got.discord_name.as_str()), ("1", "Achille"));
        assert_eq!(got.spotify_username, "achille_sp");
        assert!(got.active);
    }
}

#[test]
fn an_unreadable_row_is_not_an_absent_one() {
    let c = cipher(Some("a-key"));
    let mut row = save(&c, &creds("1", true));
    row.discord_user_id = "2".into();
    assert!(matches!(row_tokens(&c, &row), RowTokens::Unreadable));
    row.auth_blob = None;
    assert!(matches!(row_tokens(&c, &row), RowTokens::Absent));
}

#[test]
fn printed_credentials_hold_no_token() {
    let shown = format!("{:?}", creds("1", true).printable());
    assert!(shown.contains("<redacted>") && shown.contains("achille_sp"));
    assert!(!shown.contains("\"at\"") && !shown.contains("\"rt\""));
}

#[test]
fn a_row_without_a_spotify_name_has_an_empty_one() {
    let row = CredentialRow {
        discord_user_id: "1".into(),
        discord_name: "n".into(),
        spotify_username: None,
        auth_blob: None,
        is_active: false,
    };
    assert_eq!(row_to_creds(row, "a".into(), "r".into()).spotify_username, "");
    assert!(on_disk("x.db") && !on_disk(":memory:"));
}
