//! Privacy: encryption at rest, encryption status, and backup naming,
//! selection and rotation. Key files and backups are read and written
//! outside; the decisions and the byte framing are made here.

use ring::rand::SecureRandom;
use vstd::prelude::*;

use crate::capabilities::seq_le;
use crate::errors::CoordinatorError;
use crate::text::{chars_of, is_prefix, join_path, owned, path_join, str_starts_with};

verus! {

/// Encryption status reported to the user.
#[derive(Debug, Clone, Copy, PartialEq, Eq, Structural)]
pub enum EncryptionStatus {
    Enabled,
    Disabled,
    Broken,
}

/// Privacy configuration, stored alongside settings.
#[derive(Debug)]
pub struct PrivacyConfig {
    /// Whether to encrypt the World Model and settings at rest.
    pub encrypt_storage: bool,
    /// Whether to operate in local-only mode (no network requests).
    pub local_only: bool,
    /// Number of backup copies to keep.
    pub backup_count: u32,
    /// Path to the backup directory.
    pub backup_path: String,
}

/// `home/.local/share/ai-os-companion/backups`.
pub open spec fn default_backup_dir(home: Seq<char>) -> Seq<char> {
    path_join(
        path_join(path_join(path_join(home, ".local"@), "share"@), "ai-os-companion"@),
        "backups"@,
    )
}

/// `home/.config/ai-os-companion/.encryption_key`.
pub open spec fn default_key_path(home: Seq<char>) -> Seq<char> {
    path_join(path_join(path_join(home, ".config"@), "ai-os-companion"@), ".encryption_key"@)
}

impl PrivacyConfig {
    /// The default configuration for a user whose home directory is `home`:
    /// no encryption, network allowed, three backups.
    pub fn for_home(home: &str) -> (c: Self)
        ensures
            !c.encrypt_storage,
            !c.local_only,
            c.backup_count == 3,
            c.backup_path@ == default_backup_dir(home@),
    {
        let a = join_path(home, ".local");
        let b = join_path(a.as_str(), "share");
        let c = join_path(b.as_str(), "ai-os-companion");
        let d = join_path(c.as_str(), "backups");
        PrivacyConfig { encrypt_storage: false, local_only: false, backup_count: 3, backup_path: d }
    }
}

/// High-level privacy operations.
#[derive(Debug)]
pub struct PrivacyManager {
    key_path: String,
    config: PrivacyConfig,
}

impl PrivacyManager {
    pub closed spec fn key_path_view(self) -> Seq<char> {
        self.key_path@
    }

    pub closed spec fn config_view(self) -> PrivacyConfig {
        self.config
    }

    /// A manager whose key lives in the user's configuration directory.
    pub fn for_home(config: PrivacyConfig, home: &str) -> (m: Self)
        ensures
            m.key_path_view() == default_key_path(home@),
            m.config_view() == config,
    {
        let a = join_path(home, ".config");
        let b = join_path(a.as_str(), "ai-os-companion");
        let key_path = join_path(b.as_str(), ".encryption_key");
        PrivacyManager { key_path, config }
    }

    /// A manager with a custom key path.
    pub fn new_in(config: PrivacyConfig, key_path: String) -> (m: Self)
        ensures
            m.key_path_view() == key_path@,
            m.config_view() == config,
    {
        PrivacyManager { key_path, config }
    }

    /// The encryption key path.
    pub fn key_path(&self) -> (p: &str)
        ensures
            p@ == self.key_path_view(),
    {
        self.key_path.as_str()
    }

    /// The privacy configuration.
    pub fn config(&self) -> (c: &PrivacyConfig)
        ensures
            *c == self.config_view(),
    {
        &self.config
    }
}

/// The status from what was found on disk: no key file means disabled; a
/// key file that reads as exactly 32 bytes means enabled; anything else
/// (unreadable, wrong length) means broken.
pub fn encryption_status_from(key_exists: bool, key_len: Option<usize>) -> (s: EncryptionStatus)
    ensures
        s == (if !key_exists {
            EncryptionStatus::Disabled
        } else if key_len == Some(32usize) {
            EncryptionStatus::Enabled
        } else {
            EncryptionStatus::Broken
        }),
{
    if !key_exists {
        return EncryptionStatus::Disabled;
    }
    match key_len {
        Some(n) => {
            if n == 32 {
                EncryptionStatus::Enabled
            } else {
                EncryptionStatus::Broken
            }
        },
        None => EncryptionStatus::Broken,
    }
}

/// A key file's content is usable only when it is exactly 32 bytes.
pub fn key_from_bytes(data: Vec<u8>) -> (r: Result<Vec<u8>, CoordinatorError>)
    ensures
        data@.len() == 32 ==> (r matches Ok(k) && k@ == data@),
        data@.len() != 32 ==> (r matches Err(CoordinatorError::Internal(m)) && m@
            == "invalid key length"@),
{
    if data.len() != 32 {
        return Err(CoordinatorError::Internal(owned("invalid key length")));
    }
    Ok(data)
}

/// What AES-256-GCM sealing (ring's `seal_in_place_append_tag`) produces
/// for a key, nonce and plaintext: ciphertext followed by the tag.
pub uninterp spec fn aes_gcm_seal(key: Seq<u8>, nonce: Seq<u8>, plaintext: Seq<u8>) -> Seq<u8>;

/// What AES-256-GCM opening (ring's `open_in_place`) gives for a key,
/// nonce and sealed data: the plaintext, or `None` when authentication
/// fails.
pub uninterp spec fn aes_gcm_open(key: Seq<u8>, nonce: Seq<u8>, sealed: Seq<u8>) -> Option<
    Seq<u8>,
>;

/// Calls ring's `UnboundKey::new(&AES_256_GCM, key)`, `LessSafeKey::new`,
/// `Nonce::assume_unique_for_key` and `seal_in_place_append_tag` with an
/// empty AAD. A result is the sealed bytes, named `aes_gcm_seal`; opening
/// them with the same key and nonce gives the plaintext back (AEAD
/// correctness); ring appends a 16-byte tag (`TAG_LEN`) to the
/// ciphertext, which is as long as the plaintext. ring refuses only inputs
/// beyond AES-GCM's length limit (`MAX_IN_OUT_LEN`, (2^39 - 256) / 8
/// bytes); then the result is `None`.
#[verifier::external_body]
fn seal_aes_256_gcm(key: &[u8], nonce: &[u8], plaintext: &[u8]) -> (r: Option<Vec<u8>>)
    requires
        key@.len() == 32,
        nonce@.len() == 12,
    ensures
        r matches Some(c) ==> c@ == aes_gcm_seal(key@, nonce@, plaintext@) && aes_gcm_open(
            key@,
            nonce@,
            c@,
        ) == Some(plaintext@) && c@.len() == plaintext@.len() + 16,
        plaintext@.len() <= 68719476704 ==> r is Some,
{
    let k = ring::aead::UnboundKey::new(&ring::aead::AES_256_GCM, key).ok()?;
    let mut n = [0u8; 12];
    n.copy_from_slice(nonce);
    let sealing = ring::aead::LessSafeKey::new(k);
    let mut in_out = plaintext.to_vec();
    sealing.seal_in_place_append_tag(
        ring::aead::Nonce::assume_unique_for_key(n),
        ring::aead::Aad::empty(),
        &mut in_out,
    ).ok()?;
    Some(in_out)
}

/// Calls ring's `UnboundKey::new(&AES_256_GCM, key)`, `LessSafeKey::new`,
/// `Nonce::assume_unique_for_key` and `open_in_place` with an empty AAD.
/// The result is `aes_gcm_open` of the arguments.
#[verifier::external_body]
fn open_aes_256_gcm(key: &[u8], nonce: &[u8], sealed: &[u8]) -> (r: Option<Vec<u8>>)
    requires
        key@.len() == 32,
        nonce@.len() == 12,
    ensures
        match r {
            Some(p) => aes_gcm_open(key@, nonce@, sealed@) == Some(p@),
            None => aes_gcm_open(key@, nonce@, sealed@).is_none(),
        },
{
    let k = ring::aead::UnboundKey::new(&ring::aead::AES_256_GCM, key).ok()?;
    let mut n = [0u8; 12];
    n.copy_from_slice(nonce);
    let opening = ring::aead::LessSafeKey::new(k);
    let mut in_out = sealed.to_vec();
    let plain = opening.open_in_place(
        ring::aead::Nonce::assume_unique_for_key(n),
        ring::aead::Aad::empty(),
        &mut in_out,
    ).ok()?;
    Some(plain.to_vec())
}

/// Calls ring's `SystemRandom::new().fill` on a 12-byte buffer. The bytes
/// are random, so only their number is stated; `None` when the system
/// source of randomness fails.
#[verifier::external_body]
fn random_nonce() -> (r: Option<Vec<u8>>)
    ensures
        r matches Some(n) ==> n@.len() == 12,
{
    let mut n = [0u8; 12];
    ring::rand::SystemRandom::new().fill(&mut n).ok()?;
    Some(n.to_vec())
}

fn copy_range(data: &[u8], from: usize, to: usize) -> (r: Vec<u8>)
    requires
        from <= to <= data@.len(),
    ensures
        r@ == data@.subrange(from as int, to as int),
{
    let mut r: Vec<u8> = Vec::new();
    let mut i = from;
    while i < to
        invariant
            from <= i <= to <= data@.len(),
            r@ == data@.subrange(from as int, i as int),
        decreases to - i,
    {
        r.push(data[i]);
        i = i + 1;
        assert(r@ =~= data@.subrange(from as int, i as int));
    }
    r
}

/// What decrypting `data` with `key` gives: the first 12 bytes are the
/// nonce, the rest is the sealed message.
pub open spec fn decrypt_spec(key: Seq<u8>, data: Seq<u8>) -> Option<Seq<u8>> {
    if data.len() < 12 {
        None
    } else {
        aes_gcm_open(key, data.subrange(0, 12), data.subrange(12, data.len() as int))
    }
}

/// Encrypt `plaintext` with AES-256-GCM under a fresh random nonce; the
/// nonce is prepended to the sealed bytes. Whatever comes out decrypts back
/// to the plaintext under the same key.
pub fn encrypt_with_key(key: &[u8], plaintext: &[u8]) -> (r: Result<Vec<u8>, CoordinatorError>)
    requires
        key@.len() == 32,
    ensures
        r matches Ok(v) ==> {
            &&& v@.len() >= 12
            &&& v@.subrange(12, v@.len() as int) == aes_gcm_seal(key@, v@.subrange(0, 12), plaintext@)
            &&& decrypt_spec(key@, v@) == Some(plaintext@)
            &&& v@.len() == 12 + plaintext@.len() + 16
        },
        r matches Err(e) ==> (e matches CoordinatorError::Internal(m) && (m@
            == "nonce: ring::error::Unspecified"@ || (m@ == "encrypt: ring::error::Unspecified"@
            && plaintext@.len() > 68719476704))),
{
    let nonce = match random_nonce() {
        Some(n) => n,
        None => {
            return Err(CoordinatorError::Internal(owned("nonce: ring::error::Unspecified")));
        },
    };
    let sealed = match seal_aes_256_gcm(key, nonce.as_slice(), plaintext) {
        Some(c) => c,
        None => {
            return Err(CoordinatorError::Internal(owned("encrypt: ring::error::Unspecified")));
        },
    };
    let mut out = nonce.clone();
    let mut i: usize = 0;
    while i < sealed.len()
        invariant
            i <= sealed@.len(),
            nonce@.len() == 12,
            out@ == nonce@ + sealed@.subrange(0, i as int),
        decreases sealed@.len() - i,
    {
        out.push(sealed[i]);
        i = i + 1;
        assert(out@ =~= nonce@ + sealed@.subrange(0, i as int));
    }
    assert(sealed@.subrange(0, i as int) =~= sealed@);
    assert(out@.subrange(0, 12) =~= nonce@);
    assert(out@.subrange(12, out@.len() as int) =~= sealed@);
    Ok(out)
}

/// Decrypt data produced by `encrypt_with_key`.
pub fn decrypt_with_key(key: &[u8], data: &[u8]) -> (r: Result<Vec<u8>, CoordinatorError>)
    requires
        key@.len() == 32,
    ensures
        data@.len() < 12 ==> (r matches Err(CoordinatorError::Internal(m)) && m@
            == "truncated encrypted data"@),
        data@.len() >= 12 ==> match r {
            Ok(p) => decrypt_spec(key@, data@) == Some(p@),
            Err(e) => decrypt_spec(key@, data@).is_none() && (e matches CoordinatorError::Internal(
                m,
            ) && m@ == "decrypt: ring::error::Unspecified"@),
        },
{
    if data.len() < 12 {
        return Err(CoordinatorError::Internal(owned("truncated encrypted data")));
    }
    let nonce = copy_range(data, 0, 12);
    let sealed = copy_range(data, 12, data.len());
    match open_aes_256_gcm(key, nonce.as_slice(), sealed.as_slice()) {
        Some(p) => Ok(p),
        None => Err(CoordinatorError::Internal(owned("decrypt: ring::error::Unspecified"))),
    }
}

fn bytes_copy(data: &[u8]) -> (r: Vec<u8>)
    ensures
        r@ == data@,
{
    let mut r: Vec<u8> = Vec::new();
    let mut i: usize = 0;
    while i < data.len()
        invariant
            i <= data@.len(),
            r@ == data@.subrange(0, i as int),
        decreases data@.len() - i,
    {
        r.push(data[i]);
        i = i + 1;
        assert(r@ =~= data@.subrange(0, i as int));
    }
    assert(data@.subrange(0, data@.len() as int) =~= data@);
    r
}

/// Encrypts with the storage key when encryption is enabled (a key is
/// given); without a key the data passes through unchanged.
pub fn encrypt_stored(key: Option<&[u8]>, plaintext: &[u8]) -> (r: Result<Vec<u8>, CoordinatorError>)
    requires
        key matches Some(k) ==> k@.len() == 32,
    ensures
        key is None ==> (r matches Ok(v) && v@ == plaintext@),
        key matches Some(k) ==> (r matches Ok(v) ==> decrypt_spec(k@, v@) == Some(plaintext@)
            && v@.len() == 12 + plaintext@.len() + 16),
        key is Some ==> (r matches Err(e) ==> (e matches CoordinatorError::Internal(m) && (m@
            == "nonce: ring::error::Unspecified"@ || (m@ == "encrypt: ring::error::Unspecified"@
            && plaintext@.len() > 68719476704)))),
{
    match key {
        None => Ok(bytes_copy(plaintext)),
        Some(k) => encrypt_with_key(k, plaintext),
    }
}

/// Decrypts with the storage key when encryption is enabled; without a
/// key the data passes through unchanged.
pub fn decrypt_stored(key: Option<&[u8]>, data: &[u8]) -> (r: Result<Vec<u8>, CoordinatorError>)
    requires
        key matches Some(k) ==> k@.len() == 32,
    ensures
        key is None ==> (r matches Ok(v) && v@ == data@),
        key matches Some(k) ==> match r {
            Ok(p) => decrypt_spec(k@, data@) == Some(p@),
            Err(_) => decrypt_spec(k@, data@) is None,
        },
{
    match key {
        None => Ok(bytes_copy(data)),
        Some(k) => decrypt_with_key(k, data),
    }
}

/// The file name of a backup of `stem`(`.ext`) taken at `timestamp`:
/// `stem-timestamp.bak`, or `stem-timestamp.ext.bak` when there is an
/// extension.
pub open spec fn backup_name_spec(stem: Seq<char>, ext: Seq<char>, timestamp: Seq<char>) -> Seq<
    char,
> {
    if ext.len() == 0 {
        stem + "-"@ + timestamp + ".bak"@
    } else {
        stem + "-"@ + timestamp + "."@ + ext + ".bak"@
    }
}

pub fn backup_file_name(stem: &str, ext: &str, timestamp: &str) -> (r: String)
    ensures
        r@ == backup_name_spec(stem@, ext@, timestamp@),
{
    let mut r = String::from_str(stem);
    r.append("-");
    r.append(timestamp);
    if ext.unicode_len() == 0 {
        r.append(".bak");
    } else {
        r.append(".");
        r.append(ext);
        r.append(".bak");
    }
    r
}

/// How many of `count` backups to delete so that `keep` remain.
pub fn backups_to_remove(count: usize, keep: u32) -> (r: usize)
    ensures
        r == (if count > keep { (count - keep) as usize } else { 0 }),
{
    count.saturating_sub(keep as usize)
}

pub open spec fn name_views(s: Seq<String>) -> Seq<Seq<char>> {
    s.map_values(|n: String| n@)
}

/// The most recent backup of `stem` among `names`: the greatest name, in
/// path order, of those that start with `stem`.
pub fn latest_backup(names: &Vec<String>, stem: &str) -> (r: Option<usize>)
    ensures
        match r {
            Some(i) => {
                &&& i < names@.len()
                &&& is_prefix(stem@, names@[i as int]@)
                &&& forall|j: int|
                    0 <= j < names@.len() && is_prefix(stem@, #[trigger] names@[j]@) ==> seq_le(
                        names@[j]@,
                        names@[i as int]@,
                    )
            },
            None => forall|j: int| 0 <= j < names@.len() ==> !is_prefix(stem@, #[trigger] names@[j]@),
        },
{
    let mut best: Option<usize> = None;
    let mut i: usize = 0;
    while i < names.len()
        invariant
            i <= names@.len(),
            match best {
                Some(b) => {
                    &&& b < i
                    &&& is_prefix(stem@, names@[b as int]@)
                    &&& forall|j: int|
                        0 <= j < i && is_prefix(stem@, #[trigger] names@[j]@) ==> seq_le(
                            names@[j]@,
                            names@[b as int]@,
                        )
                },
                None => forall|j: int| 0 <= j < i ==> !is_prefix(stem@, #[trigger] names@[j]@),
            },
        decreases names@.len() - i,
    {
        if str_starts_with(names[i].as_str(), stem) {
            match best {
                Some(b) => {
                    if crate::capabilities::name_le_pub(names[b].as_str(), names[i].as_str()) {
                        proof {
                            assert forall|j: int|
                                0 <= j < i + 1 && is_prefix(stem@, #[trigger] names@[j]@) implies seq_le(
                                names@[j]@,
                                names@[i as int]@,
                            ) by {
                                if j < i {
                                    crate::capabilities::lemma_seq_le_trans(
                                        names@[j]@,
                                        names@[b as int]@,
                                        names@[i as int]@,
                                    );
                                } else {
                                    crate::capabilities::lemma_seq_le_refl(names@[j]@);
                                }
                            }
                        }
                        best = Some(i);
                    } else {
                        proof {
                            crate::capabilities::lemma_seq_le_total(
                                names@[b as int]@,
                                names@[i as int]@,
                            );
                        }
                    }
                },
                None => {
                    proof {
                        crate::capabilities::lemma_seq_le_refl(names@[i as int]@);
                    }
                    best = Some(i);
                },
            }
        }
        i = i + 1;
    }
    best
}

} // verus!
