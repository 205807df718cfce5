//! Per-user Spotify credentials.
//!
//! Tokens live in an encrypted blob (see [`crypto`]); the rest of a stored
//! row is queryable plaintext.

use vstd::prelude::*;

use crate::bytes::text_bytes;
use crate::users::crypto::TokenCipher;

pub mod crypto;

verus! {

/// A user's stored credentials. Deliberately no `Debug`: two fields are
/// tokens.
#[derive(Clone)]
pub struct UserCredentials {
    pub discord_user_id: String,
    pub discord_name: String,
    pub spotify_username: String,
    pub access_token: String,
    pub refresh_token: String,
    pub active: bool,
}

/// Credentials as they may be printed.
#[derive(Clone, Debug, PartialEq, Eq)]
pub struct PrintableCredentials {
    pub discord_user_id: String,
    pub discord_name: String,
    pub spotify_username: String,
    pub access_token: String,
    pub refresh_token: String,
    pub active: bool,
}

impl UserCredentials {
    /// The credentials with both tokens blotted out, so that printing them
    /// can never leak one.
    pub fn printable(&self) -> (r: PrintableCredentials)
        ensures
            r.discord_user_id == self.discord_user_id,
            r.discord_name == self.discord_name,
            r.spotify_username == self.spotify_username,
            r.access_token@ == "<redacted>"@,
            r.refresh_token@ == "<redacted>"@,
            r.active == self.active,
    {
        PrintableCredentials {
            discord_user_id: self.discord_user_id.clone(),
            discord_name: self.discord_name.clone(),
            spotify_username: self.spotify_username.clone(),
            access_token: "<redacted>".to_owned(),
            refresh_token: "<redacted>".to_owned(),
            active: self.active,
        }
    }

    /// The credentials under rotated tokens; a refresh that names no new
    /// refresh token keeps the old one.
    pub fn rotated(self, access_token: String, refresh_token: Option<String>) -> (r: Self)
        ensures
            r.discord_user_id == self.discord_user_id,
            r.discord_name == self.discord_name,
            r.spotify_username == self.spotify_username,
            r.active == self.active,
            r.access_token == access_token,
            r.refresh_token == (match refresh_token {
                Some(t) => t,
                None => self.refresh_token,
            }),
    {
        UserCredentials {
            discord_user_id: self.discord_user_id,
            discord_name: self.discord_name,
            spotify_username: self.spotify_username,
            access_token,
            refresh_token: match refresh_token {
                Some(t) => t,
                None => self.refresh_token,
            },
            active: self.active,
        }
    }
}

/// One row of the credential table.
#[derive(Debug)]
pub struct CredentialRow {
    pub discord_user_id: String,
    pub discord_name: String,
    pub spotify_username: Option<String>,
    pub auth_blob: Option<Vec<u8>>,
    pub is_active: bool,
}

/// What a row's blob holds.
#[derive(Debug)]
pub enum RowTokens {
    /// Nothing was ever stored.
    Absent,
    /// Wrong or rotated key, corrupt, or sealed for another owner; not to be
    /// mistaken for a user who never logged in.
    Unreadable,
    /// The serialized tokens.
    Plain(Vec<u8>),
}

/// What a blob is bound to: its owner's id.
pub open spec fn owner(discord_user_id: Seq<char>) -> Seq<u8> {
    vstd::utf8::encode_utf8(discord_user_id)
}

/// `tokens` is what the blob of `row` holds under `cipher`.
pub open spec fn row_reads(cipher: TokenCipher, row: CredentialRow, tokens: RowTokens) -> bool {
    match row.auth_blob {
        None => tokens is Absent,
        Some(blob) => match cipher.opens(blob@, owner(row.discord_user_id@)) {
            Some(plain) => tokens matches RowTokens::Plain(p) && p@ == plain,
            None => tokens is Unreadable,
        },
    }
}

/// `row` is how these credentials are stored, with `tokens` as their tokens
/// serialized.
pub open spec fn row_stores(
    cipher: TokenCipher,
    row: CredentialRow,
    creds: UserCredentials,
    tokens: Seq<u8>,
) -> bool {
    &&& row.discord_user_id == creds.discord_user_id
    &&& row.discord_name == creds.discord_name
    &&& row.spotify_username == Some(creds.spotify_username)
    &&& row.is_active == creds.active
    &&& row.auth_blob matches Some(blob) && cipher.sealed_for(
        blob@,
        tokens,
        owner(creds.discord_user_id@),
    ) && cipher.opens(blob@, owner(creds.discord_user_id@)) == Some(tokens)
}

/// `creds` are the credentials of `row` under these tokens.
pub open spec fn row_gives(
    row: CredentialRow,
    access_token: String,
    refresh_token: String,
    creds: UserCredentials,
) -> bool {
    &&& creds.discord_user_id == row.discord_user_id
    &&& creds.discord_name == row.discord_name
    &&& match row.spotify_username {
        Some(name) => creds.spotify_username == name,
        None => creds.spotify_username@ == Seq::<char>::empty(),
    }
    &&& creds.access_token == access_token
    &&& creds.refresh_token == refresh_token
    &&& creds.active == row.is_active
}

/// Open a row's blob, which is bound to the row's owner.
pub fn row_tokens(cipher: &TokenCipher, row: &CredentialRow) -> (r: RowTokens)
    requires
        cipher.wf(),
    ensures
        row_reads(*cipher, *row, r),
{
    match &row.auth_blob {
        None => RowTokens::Absent,
        Some(blob) => {
            let owner = text_bytes(row.discord_user_id.as_str());
            match cipher.open(blob.as_slice(), owner.as_slice()) {
                Some(plain) => RowTokens::Plain(plain),
                None => RowTokens::Unreadable,
            }
        },
    }
}

/// The blob to store for an owner's serialized tokens.
pub fn owner_blob(cipher: &TokenCipher, discord_user_id: &str, tokens: &[u8]) -> (r: Vec<u8>)
    requires
        cipher.wf(),
        tokens@.len() < crate::bytes::SEAL_LIMIT,
    ensures
        cipher.sealed_for(r@, tokens@, owner(discord_user_id@)),
        cipher.opens(r@, owner(discord_user_id@)) == Some(tokens@),
{
    let owner = text_bytes(discord_user_id);
    cipher.seal(tokens, owner.as_slice())
}

/// The row to store for some credentials, whose tokens are serialized as
/// `tokens`.
pub fn credential_row(cipher: &TokenCipher, creds: &UserCredentials, tokens: &[u8]) -> (r:
    CredentialRow)
    requires
        cipher.wf(),
        tokens@.len() < crate::bytes::SEAL_LIMIT,
    ensures
        row_stores(*cipher, r, *creds, tokens@),
{
    CredentialRow {
        discord_user_id: creds.discord_user_id.clone(),
        discord_name: creds.discord_name.clone(),
        spotify_username: Some(creds.spotify_username.clone()),
        auth_blob: Some(owner_blob(cipher, creds.discord_user_id.as_str(), tokens)),
        is_active: creds.active,
    }
}

/// The credentials of a row whose tokens have been read.
pub fn row_to_creds(row: CredentialRow, access_token: String, refresh_token: String) -> (r:
    UserCredentials)
    ensures
        row_gives(row, access_token, refresh_token, r),
{
    UserCredentials {
        discord_user_id: row.discord_user_id,
        discord_name: row.discord_name,
        spotify_username: match row.spotify_username {
            Some(n) => n,
            None => String::new(),
        },
        access_token,
        refresh_token,
        active: row.is_active,
    }
}

/// The database file whose permissions are restricted: every one but the
/// in-memory one.
pub fn on_disk(path: &str) -> (r: bool)
    ensures
        r == (path@ != ":memory:"@),
{
    !crate::text::same_text(path, ":memory:")
}

/// What is stored for a user reads back: opening the row gives the serialized
/// tokens again, and with them the credentials that were stored, in every
/// field. Under a key the stored blob is marked as ciphertext.
pub proof fn law_stored_credentials_read_back(
    cipher: TokenCipher,
    creds: UserCredentials,
    tokens: Seq<u8>,
    row: CredentialRow,
    read: RowTokens,
    back: UserCredentials,
)
    requires
        row_stores(cipher, row, creds, tokens),
        row_reads(cipher, row, read),
        row_gives(row, creds.access_token, creds.refresh_token, back),
    ensures
        read matches RowTokens::Plain(plain) && plain@ == tokens,
        back == creds,
        cipher.key() is Some ==> row.auth_blob->0@[0] == crate::users::crypto::V_XCHACHA_AAD,
{
}

/// Printed credentials show everything but the tokens, whatever those are.
pub proof fn law_tokens_are_never_printed(creds: UserCredentials, shown: PrintableCredentials)
    requires
        call_ensures(UserCredentials::printable, (&creds,), shown),
    ensures
        shown.access_token@ == "<redacted>"@,
        shown.refresh_token@ == "<redacted>"@,
        shown.discord_user_id == creds.discord_user_id,
        shown.discord_name == creds.discord_name,
        shown.spotify_username == creds.spotify_username,
        shown.active == creds.active,
{
}

/// New tokens replace the old ones in credentials that stay the same
/// otherwise; without a new refresh token the old one stays.
pub proof fn law_new_tokens_keep_the_account(
    creds: UserCredentials,
    access_token: String,
    refresh_token: Option<String>,
    after: UserCredentials,
)
    requires
        call_ensures(UserCredentials::rotated, (creds, access_token, refresh_token), after),
    ensures
        after.access_token == access_token,
        refresh_token matches Some(t) ==> after.refresh_token == t,
        refresh_token is None ==> after.refresh_token == creds.refresh_token,
        after.discord_user_id == creds.discord_user_id,
        after.discord_name == creds.discord_name,
        after.spotify_username == creds.spotify_username,
        after.active == creds.active,
{
}

/// A row gives the credentials it names under the tokens that were read, with
/// an empty Spotify name where it has none.
pub proof fn law_rows_give_their_own_credentials(
    row: CredentialRow,
    access_token: String,
    refresh_token: String,
    creds: UserCredentials,
)
    requires
        call_ensures(row_to_creds, (row, access_token, refresh_token), creds),
    ensures
        creds.discord_user_id == row.discord_user_id,
        creds.discord_name == row.discord_name,
        row.spotify_username matches Some(name) ==> creds.spotify_username == name,
        row.spotify_username is None ==> creds.spotify_username@.len() == 0,
        creds.access_token == access_token,
        creds.refresh_token == refresh_token,
        creds.active == row.is_active,
{
}

/// A row without a blob has no tokens; one with a blob has what the blob opens
/// to for the row's own user, and is unreadable when it opens to nothing. Only
/// the in-memory database is not on disk.
pub proof fn law_a_row_is_read_for_its_owner(
    cipher: TokenCipher,
    row: CredentialRow,
    tokens: RowTokens,
    path: &str,
    kept: bool,
)
    requires
        call_ensures(row_tokens, (&cipher, &row), tokens),
        call_ensures(on_disk, (path,), kept),
    ensures
        row.auth_blob is None <==> tokens is Absent,
        row.auth_blob matches Some(blob) ==> {
            let opened = cipher.opens(
                blob@,
                vstd::utf8::encode_utf8(row.discord_user_id@),
            );
            &&& opened is None <==> tokens is Unreadable
            &&& opened matches Some(plain) ==> (tokens matches RowTokens::Plain(p) && p@ == plain)
        },
        kept <==> path@ != ":memory:"@,
{
}

/// Stored credentials name their user in the open and hold the tokens sealed
/// for that user's id.
pub proof fn law_credentials_are_stored_for_their_owner(
    cipher: TokenCipher,
    creds: UserCredentials,
    tokens: &[u8],
    row: CredentialRow,
)
    requires
        call_ensures(credential_row, (&cipher, &creds, tokens), row),
    ensures
        row.discord_user_id == creds.discord_user_id,
        row.discord_name == creds.discord_name,
        row.spotify_username == Some(creds.spotify_username),
        row.is_active == creds.active,
        row.auth_blob matches Some(blob) && cipher.sealed_for(
            blob@,
            tokens@,
            vstd::utf8::encode_utf8(creds.discord_user_id@),
        ),
{
}

/// A blob is sealed for the user it is stored under.
pub proof fn law_blobs_are_sealed_for_their_user(
    cipher: TokenCipher,
    discord_user_id: &str,
    tokens: &[u8],
    blob: Vec<u8>,
)
    requires
        call_ensures(owner_blob, (&cipher, discord_user_id, tokens), blob),
    ensures
        cipher.sealed_for(blob@, tokens@, vstd::utf8::encode_utf8(discord_user_id@)),
        cipher.opens(blob@, vstd::utf8::encode_utf8(discord_user_id@)) == Some(tokens@),
{
}

} // verus!
