//! Key custody and the identity directory.
//!
//! An identity is a named Ed25519 key pair. Its signing key is kept only
//! encrypted: under XChaCha20-Poly1305, with a key derived from the owner's
//! passphrase and a fresh nonce that is stored in front of the ciphertext.

use crate::bytes::{text_eq, to_array};
use crate::error::{outcome_of, text_outcome_of, ErrorKind, TrustError, TrustErrorView};
use crate::primitives::{
    aead_open, aead_seal, base64_encode, base64_text, derive_public_key, ed25519_public,
    fresh_signing_key, random_nonce, sha256, sha256_digest, xchacha20poly1305_opened,
    xchacha20poly1305_sealed, KEY_LEN, NONCE_LEN, TAG_LEN,
};
use crate::security::{db_path, path_below};
use vstd::prelude::*;
use vstd::slice::slice_subrange;
use vstd::string::StringExecFns;
use vstd::utf8::encode_utf8;

verus! {

/// Length in bytes of the encrypted blob of a 32-byte signing key.
pub const BLOB_LEN: usize = 72;

/// The symmetric key derived from a passphrase: the SHA-256 digest of its
/// UTF-8 bytes.
pub open spec fn derived_key(passphrase: Seq<char>) -> Seq<u8> {
    sha256(encode_utf8(passphrase))
}

/// The blob that encrypting `secret` under `passphrase` with the given
/// nonce produces: the nonce, then the ciphertext with its tag.
pub open spec fn sealed_blob(secret: Seq<u8>, passphrase: Seq<char>, nonce: Seq<u8>) -> Seq<u8> {
    nonce + xchacha20poly1305_sealed(derived_key(passphrase), nonce, secret)
}

/// What decrypting `blob` under `passphrase` yields. A blob shorter than a
/// nonce yields nothing; so does one that fails authentication.
pub open spec fn decrypted(blob: Seq<u8>, passphrase: Seq<char>) -> Option<Seq<u8>> {
    if blob.len() < NONCE_LEN {
        None
    } else {
        xchacha20poly1305_opened(
            derived_key(passphrase),
            blob.subrange(0, NONCE_LEN as int),
            blob.subrange(NONCE_LEN as int, blob.len() as int),
        )
    }
}

/// Whether `verifying_key` and `blob` are the public key and the encrypted
/// signing key of one 32-byte signing key: the blob is that key sealed
/// under `passphrase` with the nonce it starts with, and opens under
/// `passphrase` to that key again.
pub open spec fn is_identity(verifying_key: Seq<u8>, blob: Seq<u8>, passphrase: Seq<char>) -> bool {
    exists|secret: Seq<u8>|
        {
            &&& secret.len() == KEY_LEN
            &&& verifying_key == ed25519_public(secret)
            &&& blob == #[trigger] sealed_blob(
                secret,
                passphrase,
                blob.subrange(0, NONCE_LEN as int),
            )
            &&& decrypted(blob, passphrase) == Some(secret)
        }
}

/// The one error of decryption. It does not tell a wrong passphrase from a
/// damaged blob.
pub open spec fn credential_error() -> TrustErrorView {
    TrustErrorView { kind: ErrorKind::Credential, detail: "decrypt failed"@ }
}

/// Derives the symmetric key from a passphrase.
pub fn kdf(pass: &str) -> (key: [u8; 32])
    ensures
        key@ == derived_key(pass@),
{
    sha256_digest(pass.as_bytes())
}

/// Encrypts the signing key `sk` under `pass` with the given nonce. The
/// blob opens again under the same passphrase.
pub fn seal_private(sk: &[u8], pass: &str, nonce: &[u8; 24]) -> (blob: Vec<u8>)
    requires
        sk@.len() / 64 < u32::MAX,
    ensures
        blob@ == sealed_blob(sk@, pass@, nonce@),
        blob@.len() == NONCE_LEN + sk@.len() + TAG_LEN,
        decrypted(blob@, pass@) == Some(sk@),
{
    let key = kdf(pass);
    let mut blob: Vec<u8> = Vec::new();
    blob.extend_from_slice(nonce.as_slice());
    let ciphertext = aead_seal(&key, nonce, sk).unwrap();
    blob.extend_from_slice(ciphertext.as_slice());
    assert(blob@.subrange(0, NONCE_LEN as int) =~= nonce@);
    assert(blob@.subrange(NONCE_LEN as int, blob@.len() as int) =~= ciphertext@);
    blob
}

/// Encrypts the signing key `sk` under `pass` with a fresh random nonce.
/// Whatever the nonce, the blob opens again under the same passphrase.
pub fn encrypt_private(sk: &[u8], pass: &str) -> (blob: Vec<u8>)
    requires
        sk@.len() / 64 < u32::MAX,
    ensures
        blob@.len() == NONCE_LEN + sk@.len() + TAG_LEN,
        blob@ == sealed_blob(sk@, pass@, blob@.subrange(0, NONCE_LEN as int)),
        decrypted(blob@, pass@) == Some(sk@),
{
    let nonce = random_nonce();
    let blob = seal_private(sk, pass, &nonce);
    assert(blob@.subrange(0, NONCE_LEN as int) =~= nonce@);
    blob
}

/// Decrypts a blob under `pass`.
pub fn decrypt_private(blob: &[u8], pass: &str) -> (opened: Option<Vec<u8>>)
    ensures
        match opened {
            Some(secret) => decrypted(blob@, pass@) == Some(secret@),
            None => decrypted(blob@, pass@) is None,
        },
{
    if blob.len() < NONCE_LEN {
        return None;
    }
    let key = kdf(pass);
    match to_array::<24>(slice_subrange(blob, 0, NONCE_LEN)) {
        Some(nonce) => aead_open(&key, &nonce, slice_subrange(blob, NONCE_LEN, blob.len())),
        None => None,
    }
}

/// Makes the public key and the encrypted blob of the signing key
/// `secret`, encrypted under `passphrase` with the given nonce.
pub fn derive_identity(secret: &[u8; 32], passphrase: &str, nonce: &[u8; 24]) -> (identity: (
    [u8; 32],
    Vec<u8>,
))
    ensures
        identity.0@ == ed25519_public(secret@),
        identity.1@ == sealed_blob(secret@, passphrase@, nonce@),
        identity.1@.len() == BLOB_LEN,
        decrypted(identity.1@, passphrase@) == Some(secret@),
        is_identity(identity.0@, identity.1@, passphrase@),
{
    let verifying_key = derive_public_key(secret);
    let blob = seal_private(secret.as_slice(), passphrase, nonce);
    assert(blob@.subrange(0, NONCE_LEN as int) =~= nonce@);
    (verifying_key, blob)
}

/// Generates a fresh signing key and returns its public key together with
/// the signing key encrypted under `passphrase`. Nothing is stored.
pub fn generate_identity(passphrase: &str) -> (identity: ([u8; 32], Vec<u8>))
    ensures
        identity.1@.len() == BLOB_LEN,
        is_identity(identity.0@, identity.1@, passphrase@),
{
    let secret = fresh_signing_key();
    let nonce = random_nonce();
    derive_identity(&secret, passphrase, &nonce)
}

/// Decrypts the signing key held in `blob`. Fails with a credential error
/// on a wrong passphrase, a blob shorter than a nonce, or a blob that
/// fails authentication, without telling which.
pub fn decrypt_identity(blob: &[u8], passphrase: &str) -> (opened: Result<Vec<u8>, TrustError>)
    ensures
        match opened {
            Ok(secret) => decrypted(blob@, passphrase@) == Some(secret@),
            Err(e) => decrypted(blob@, passphrase@) is None && e@ == credential_error(),
        },
{
    match decrypt_private(blob, passphrase) {
        Some(secret) => Ok(secret),
        None => Err(TrustError::new(ErrorKind::Credential, "decrypt failed")),
    }
}

/// An identity as it is shown: its name, its display name and its public
/// key in base64.
#[derive(Debug)]
pub struct Profile {
    pub user_id: String,
    pub display_name: String,
    pub pubkey_b64: String,
}

/// Mathematical value of a `Profile`.
pub struct ProfileView {
    pub user_id: Seq<char>,
    pub display_name: Seq<char>,
    pub pubkey_b64: Seq<char>,
}

impl View for Profile {
    type V = ProfileView;

    open spec fn view(&self) -> ProfileView {
        ProfileView {
            user_id: self.user_id@,
            display_name: self.display_name@,
            pubkey_b64: self.pubkey_b64@,
        }
    }
}

impl Clone for Profile {
    fn clone(&self) -> (copy: Self)
        ensures
            copy@ == self@,
    {
        Profile {
            user_id: self.user_id.clone(),
            display_name: self.display_name.clone(),
            pubkey_b64: self.pubkey_b64.clone(),
        }
    }
}

/// An identity as it is kept: its name, its display name, its public key
/// and its signing key in encrypted form.
#[derive(Debug)]
pub struct IdentityRecord {
    pub user_id: String,
    pub display_name: String,
    pub verifying_key: [u8; 32],
    pub encrypted_key: Vec<u8>,
}

/// Mathematical value of an `IdentityRecord`.
pub struct IdentityRecordView {
    pub user_id: Seq<char>,
    pub display_name: Seq<char>,
    pub verifying_key: Seq<u8>,
    pub encrypted_key: Seq<u8>,
}

impl View for IdentityRecord {
    type V = IdentityRecordView;

    open spec fn view(&self) -> IdentityRecordView {
        IdentityRecordView {
            user_id: self.user_id@,
            display_name: self.display_name@,
            verifying_key: self.verifying_key@,
            encrypted_key: self.encrypted_key@,
        }
    }
}

impl Clone for IdentityRecord {
    fn clone(&self) -> (copy: Self)
        ensures
            copy@ == self@,
    {
        IdentityRecord {
            user_id: self.user_id.clone(),
            display_name: self.display_name.clone(),
            verifying_key: self.verifying_key,
            encrypted_key: self.encrypted_key.clone(),
        }
    }
}

/// The values of a sequence of records.
pub open spec fn records_view(records: Seq<IdentityRecord>) -> Seq<IdentityRecordView> {
    Seq::new(records.len(), |i: int| records[i]@)
}

/// The values of a sequence of profiles.
pub open spec fn profiles_view(profiles: Seq<Profile>) -> Seq<ProfileView> {
    Seq::new(profiles.len(), |i: int| profiles[i]@)
}

/// Whether no two records carry the same name.
pub open spec fn ids_distinct(records: Seq<IdentityRecordView>) -> bool {
    forall|i: int, j: int|
        0 <= i < j < records.len() ==> (#[trigger] records[i]).user_id != (
        #[trigger] records[j]).user_id
}

/// Whether record `i` is the one named `user_id`.
pub open spec fn holds_at(records: Seq<IdentityRecordView>, user_id: Seq<char>, i: int) -> bool {
    0 <= i < records.len() && records[i].user_id == user_id
}

/// Whether an identity named `user_id` is registered.
pub open spec fn has_identity(records: Seq<IdentityRecordView>, user_id: Seq<char>) -> bool {
    exists|i: int| holds_at(records, user_id, i)
}

/// The position of the record named `user_id`, where there is one.
pub open spec fn index_of(records: Seq<IdentityRecordView>, user_id: Seq<char>) -> int {
    choose|i: int| holds_at(records, user_id, i)
}

/// The record named `user_id`, where there is one.
pub open spec fn identity_of(
    records: Seq<IdentityRecordView>,
    user_id: Seq<char>,
) -> IdentityRecordView {
    records[index_of(records, user_id)]
}

/// The records without the one named `user_id`.
pub open spec fn without(records: Seq<IdentityRecordView>, user_id: Seq<char>) -> Seq<
    IdentityRecordView,
> {
    if has_identity(records, user_id) {
        records.remove(index_of(records, user_id))
    } else {
        records
    }
}

/// The records after `record` has been registered: it replaces a record of
/// the same name and is the newest in any case.
pub open spec fn registered(
    records: Seq<IdentityRecordView>,
    record: IdentityRecordView,
) -> Seq<IdentityRecordView> {
    without(records, record.user_id).push(record)
}

/// How a record is shown.
pub open spec fn profile_of(record: IdentityRecordView) -> ProfileView {
    ProfileView {
        user_id: record.user_id,
        display_name: record.display_name,
        pubkey_b64: base64_text(record.verifying_key),
    }
}

/// The profiles of all records, the newest first.
pub open spec fn listing(records: Seq<IdentityRecordView>) -> Seq<ProfileView> {
    Seq::new(records.len(), |i: int| profile_of(records[records.len() - 1 - i]))
}

/// No identity is registered under the name that was asked for.
pub open spec fn not_found_error() -> TrustErrorView {
    TrustErrorView { kind: ErrorKind::NotFound, detail: "unknown identity"@ }
}

/// What unlocking the identity `user_id` with `passphrase` yields: whether
/// the decrypted signing key has the length of one, or the error.
pub open spec fn unlock_outcome(
    records: Seq<IdentityRecordView>,
    user_id: Seq<char>,
    passphrase: Seq<char>,
) -> Result<bool, TrustErrorView> {
    if !has_identity(records, user_id) {
        Err(not_found_error())
    } else {
        match decrypted(identity_of(records, user_id).encrypted_key, passphrase) {
            Some(secret) => Ok(secret.len() == KEY_LEN),
            None => Err(credential_error()),
        }
    }
}

/// What asking for the public key of `user_id` yields: the key in base64,
/// or the error.
pub open spec fn public_key_outcome(
    records: Seq<IdentityRecordView>,
    user_id: Seq<char>,
) -> Result<Seq<char>, TrustErrorView> {
    if has_identity(records, user_id) {
        Ok(base64_text(identity_of(records, user_id).verifying_key))
    } else {
        Err(not_found_error())
    }
}

/// Two records of the same name in a directory are the same record.
pub proof fn lemma_position_is_unique(
    records: Seq<IdentityRecordView>,
    user_id: Seq<char>,
    i: int,
    j: int,
)
    requires
        ids_distinct(records),
        holds_at(records, user_id, i),
        holds_at(records, user_id, j),
    ensures
        i == j,
{
}

/// Registering keeps the names distinct, leaves the new record as the
/// newest, and makes it the one found under its name.
pub proof fn lemma_registered(records: Seq<IdentityRecordView>, record: IdentityRecordView)
    requires
        ids_distinct(records),
    ensures
        ids_distinct(registered(records, record)),
        registered(records, record).last() == record,
        has_identity(registered(records, record), record.user_id),
        identity_of(registered(records, record), record.user_id) == record,
        !has_identity(without(records, record.user_id), record.user_id),
{
    let rest = without(records, record.user_id);
    let after = registered(records, record);
    if has_identity(records, record.user_id) {
        let k = index_of(records, record.user_id);
        assert forall|i: int| 0 <= i < rest.len() implies (#[trigger] rest[i]).user_id
            != record.user_id by {
            let source = if i < k {
                i
            } else {
                i + 1
            };
            if records[source].user_id == record.user_id {
                lemma_position_is_unique(records, record.user_id, source, k);
            }
        }
    } else {
        assert forall|i: int| 0 <= i < rest.len() implies (#[trigger] rest[i]).user_id
            != record.user_id by {
            if rest[i].user_id == record.user_id {
                assert(holds_at(records, record.user_id, i));
            }
        }
    }
    let last = after.len() - 1;
    assert(holds_at(after, record.user_id, last));
    lemma_position_is_unique(after, record.user_id, index_of(after, record.user_id), last);
}

/// Registering an identity leaves all identities of other names as they
/// were: those that were registered still are, with the same record, and
/// no other has come in.
pub proof fn lemma_registering_keeps_others(
    records: Seq<IdentityRecordView>,
    record: IdentityRecordView,
    other: Seq<char>,
)
    requires
        ids_distinct(records),
        other != record.user_id,
    ensures
        has_identity(registered(records, record), other) == has_identity(records, other),
        has_identity(records, other) ==> identity_of(registered(records, record), other)
            == identity_of(records, other),
{
    let rest = without(records, record.user_id);
    let after = registered(records, record);
    lemma_registered(records, record);
    let k = index_of(records, record.user_id);
    let removed = has_identity(records, record.user_id);
    if has_identity(records, other) {
        let j = index_of(records, other);
        let moved = if removed && k < j {
            j - 1
        } else {
            j
        };
        assert(holds_at(records, other, j));
        assert(holds_at(after, other, moved));
        lemma_position_is_unique(after, other, index_of(after, other), moved);
    }
    if has_identity(after, other) {
        let m = index_of(after, other);
        assert(holds_at(after, other, m));
        let source = if removed && k <= m {
            m + 1
        } else {
            m
        };
        assert(holds_at(records, other, source));
    }
}

/// The identity directory: the registered identities, oldest first, no
/// two of them under one name.
#[derive(Debug)]
pub struct IdentityDirectory {
    records: Vec<IdentityRecord>,
}

impl View for IdentityDirectory {
    type V = Seq<IdentityRecordView>;

    closed spec fn view(&self) -> Seq<IdentityRecordView> {
        records_view(self.records@)
    }
}

impl IdentityDirectory {
    #[verifier::type_invariant]
    spec fn well_formed(&self) -> bool {
        ids_distinct(records_view(self.records@))
    }

    /// The empty directory.
    pub fn new() -> (directory: IdentityDirectory)
        ensures
            directory@ == Seq::<IdentityRecordView>::empty(),
    {
        let directory = IdentityDirectory { records: Vec::new() };
        directory
    }

    /// The records of the directory, oldest first.
    pub fn records(&self) -> (records: &Vec<IdentityRecord>)
        ensures
            records_view(records@) == self@,
            ids_distinct(self@),
    {
        proof {
            use_type_invariant(self);
        }
        &self.records
    }

    /// The position of the record named `user_id`.
    fn position(&self, user_id: &str) -> (found: Option<usize>)
        ensures
            ids_distinct(self@),
            match found {
                Some(i) => holds_at(self@, user_id@, i as int) && i == index_of(self@, user_id@),
                None => !has_identity(self@, user_id@),
            },
    {
        proof {
            use_type_invariant(self);
        }
        let mut i: usize = 0;
        while i < self.records.len()
            invariant
                i <= self.records@.len(),
                ids_distinct(self@),
                forall|j: int| 0 <= j < i ==> !holds_at(self@, user_id@, j),
            decreases self.records@.len() - i,
        {
            if text_eq(self.records[i].user_id.as_str(), user_id) {
                proof {
                    lemma_position_is_unique(
                        self@,
                        user_id@,
                        i as int,
                        index_of(self@, user_id@),
                    );
                }
                return Some(i);
            }
            i += 1;
        }
        None
    }

    /// The record named `user_id`, if there is one.
    pub fn find(&self, user_id: &str) -> (found: Option<&IdentityRecord>)
        ensures
            match found {
                Some(record) => has_identity(self@, user_id@) && record@ == identity_of(
                    self@,
                    user_id@,
                ),
                None => !has_identity(self@, user_id@),
            },
    {
        match self.position(user_id) {
            Some(i) => Some(&self.records[i]),
            None => None,
        }
    }

    /// Registers `record`. It replaces a record of the same name and is
    /// the newest in any case.
    pub fn register(&mut self, record: IdentityRecord)
        ensures
            final(self)@ == registered(old(self)@, record@),
    {
        let found = self.position(record.user_id.as_str());
        let mut records: Vec<IdentityRecord> = Vec::new();
        core::mem::swap(&mut self.records, &mut records);
        let ghost before = records_view(records@);
        match found {
            Some(i) => {
                records.remove(i);
                assert(records_view(records@) =~= before.remove(i as int));
            },
            None => {},
        }
        let ghost rest = records_view(records@);
        records.push(record);
        proof {
            assert(records_view(records@) =~= rest.push(record@));
            lemma_registered(before, record@);
        }
        core::mem::swap(&mut self.records, &mut records);
    }
}

/// The directory of one identity's files below the data directory.
pub fn profile_dir(data_dir: &str, user_id: &str) -> (path: String)
    ensures
        path@ == path_below(data_dir@, "profiles/"@ + user_id@),
{
    let mut name = "profiles/".to_owned();
    name.append(user_id);
    db_path(data_dir, name.as_str())
}

/// Registers `record` and returns its profile.
pub fn enroll(record: IdentityRecord, directory: &mut IdentityDirectory) -> (profile: Profile)
    ensures
        final(directory)@ == registered(old(directory)@, record@),
        profile@ == profile_of(record@),
        profile.pubkey_b64@.len() == 44,
{
    let profile = Profile {
        user_id: record.user_id.clone(),
        display_name: record.display_name.clone(),
        pubkey_b64: base64_encode(record.verifying_key.as_slice()),
    };
    directory.register(record);
    profile
}

/// Creates the identity `user_id`: generates a key pair, encrypts the
/// signing key under `passphrase`, registers the identity in place of any
/// earlier one of that name, and returns its profile.
pub fn create_profile(
    user_id: String,
    display_name: String,
    passphrase: String,
    directory: &mut IdentityDirectory,
) -> (created: Result<Profile, TrustError>)
    ensures
        created matches Ok(profile) && final(directory)@.len() > 0 && ({
            let record = final(directory)@.last();
            &&& final(directory)@ == registered(old(directory)@, record)
            &&& record.user_id == user_id@
            &&& record.display_name == display_name@
            &&& record.encrypted_key.len() == BLOB_LEN
            &&& is_identity(record.verifying_key, record.encrypted_key, passphrase@)
            &&& profile@ == profile_of(record)
            &&& profile.pubkey_b64@.len() == 44
        }),
{
    let (verifying_key, encrypted_key) = generate_identity(passphrase.as_str());
    let record = IdentityRecord { user_id, display_name, verifying_key, encrypted_key };
    proof {
        use_type_invariant(&*directory);
        lemma_registered(directory@, record@);
    }
    Ok(enroll(record, directory))
}

/// The profiles of all identities, the most recently created first.
pub fn list_profiles(directory: &IdentityDirectory) -> (listed: Result<Vec<Profile>, TrustError>)
    ensures
        listed matches Ok(profiles) && profiles_view(profiles@) == listing(directory@)
            && profiles@.len() == directory@.len(),
{
    let count = directory.records.len();
    let mut profiles: Vec<Profile> = Vec::new();
    let mut i: usize = 0;
    while i < count
        invariant
            i <= count,
            count == directory.records@.len(),
            profiles@.len() == i,
            forall|j: int| 0 <= j < i ==> profiles@[j]@ == profile_of(directory@[count - 1 - j]),
        decreases count - i,
    {
        let record = &directory.records[count - 1 - i];
        profiles.push(
            Profile {
                user_id: record.user_id.clone(),
                display_name: record.display_name.clone(),
                pubkey_b64: base64_encode(record.verifying_key.as_slice()),
            },
        );
        i += 1;
    }
    Ok(profiles)
}

/// Tries `passphrase` on the encrypted signing key of `user_id`. Returns
/// whether the key that comes out has the length of a signing key; fails
/// when the identity is unknown or the passphrase does not open the key.
pub fn unlock_profile(
    user_id: String,
    passphrase: String,
    directory: &IdentityDirectory,
) -> (unlocked: Result<bool, TrustError>)
    ensures
        outcome_of(unlocked) == unlock_outcome(directory@, user_id@, passphrase@),
{
    match directory.find(user_id.as_str()) {
        None => Err(TrustError::new(ErrorKind::NotFound, "unknown identity")),
        Some(record) => {
            match decrypt_identity(record.encrypted_key.as_slice(), passphrase.as_str()) {
                Ok(secret) => Ok(secret.len() == KEY_LEN),
                Err(e) => Err(e),
            }
        },
    }
}

/// The public key of `user_id` in base64: 44 characters for its 32 bytes.
pub fn get_public_key(user_id: String, directory: &IdentityDirectory) -> (key: Result<
    String,
    TrustError,
>)
    ensures
        text_outcome_of(key) == public_key_outcome(directory@, user_id@),
        key matches Ok(text) ==> text@.len() == 44,
{
    match directory.find(user_id.as_str()) {
        None => Err(TrustError::new(ErrorKind::NotFound, "unknown identity")),
        Some(record) => Ok(base64_encode(record.verifying_key.as_slice())),
    }
}

} // verus!
