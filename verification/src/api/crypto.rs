//! Token-at-rest encryption: AES-256-GCM under a key derived from the machine
//! identifier with HKDF-SHA256; the blob is `base64(nonce_12 || ciphertext_with_tag)`.

use vstd::prelude::*;
use vstd::string::StringSliceAdditionalSpecFns;
use crate::text::opt_chars;

verus! {

/// Salt of the key derivation; changing it rotates every stored blob.
pub const APP_SALT: &'static str = "11eOverlay/v1/aes-gcm-key";

/// Context string of the key derivation.
pub const KDF_INFO: &'static str = "11eOverlay/overlay-tokens/v1";

/// Bytes of the random nonce that prefixes every blob.
pub const NONCE_LEN: usize = 12;

/// Bytes of the AES-GCM authentication tag.
pub const TAG_LEN: usize = 16;

/// Longest plaintext that AES-GCM accepts (`aes_gcm::P_MAX`, 2^36 bytes).
pub const AES_GCM_P_MAX: u64 = 68_719_476_736;

/// The 32-byte output of HKDF-SHA256 (`hkdf::Hkdf::<Sha256>::new(Some(salt), ikm)`
/// then `expand(info, ..)` into 32 bytes).
pub uninterp spec fn hkdf_sha256_okm32(salt: Seq<u8>, ikm: Seq<u8>, info: Seq<u8>) -> Seq<u8>;

/// Calls HKDF-SHA256 extract-and-expand into 32 bytes.
/// Trusted: the result is `hkdf_sha256_okm32(salt, ikm, info)` and has 32 bytes;
/// expansion into 32 bytes never fails (the crate refuses only more than 255 hash lengths).
#[verifier::external_body]
fn hkdf_sha256_expand32(salt: &[u8], ikm: &[u8], info: &[u8]) -> (r: Vec<u8>)
    ensures
        r@ == hkdf_sha256_okm32(salt@, ikm@, info@),
        r@.len() == 32,
{
    let hk = hkdf::Hkdf::<sha2::Sha256>::new(Some(salt), ikm);
    let mut okm = [0u8; 32];
    hk.expand(info, &mut okm).expect("32 bytes is a valid HKDF-SHA256 length");
    okm.to_vec()
}

/// Ciphertext with appended tag that AES-256-GCM (`aes_gcm::Aes256Gcm`, `Aead::encrypt`,
/// no associated data) produces for this key, nonce and plaintext.
pub uninterp spec fn aes256gcm_seal(key: Seq<u8>, nonce: Seq<u8>, plaintext: Seq<u8>) -> Seq<u8>;

/// What AES-256-GCM decryption (`Aead::decrypt`, no associated data) yields:
/// the plaintext, or `None` when the tag does not verify.
pub uninterp spec fn aes256gcm_open(key: Seq<u8>, nonce: Seq<u8>, ciphertext: Seq<u8>) -> Option<Seq<u8>>;

/// Encrypts with AES-256-GCM. Trusted: it fails exactly when the plaintext is
/// longer than `P_MAX`; otherwise the output is `aes256gcm_seal(..)`, is 16 bytes
/// longer than the plaintext (the tag is appended), and decrypts under the same
/// key and nonce back to the plaintext.
#[verifier::external_body]
fn aes256gcm_encrypt(key: &[u8], nonce: &[u8], plaintext: &[u8]) -> (r: Option<Vec<u8>>)
    requires
        key@.len() == 32,
        nonce@.len() == NONCE_LEN,
    ensures
        r is Some <==> plaintext@.len() <= AES_GCM_P_MAX,
        r matches Some(c) ==> {
            &&& c@ == aes256gcm_seal(key@, nonce@, plaintext@)
            &&& c@.len() == plaintext@.len() + TAG_LEN
            &&& aes256gcm_open(key@, nonce@, c@) == Some(plaintext@)
        },
{
    let cipher: aes_gcm::Aes256Gcm = aes_gcm::aead::KeyInit::new(
        aes_gcm::Key::<aes_gcm::Aes256Gcm>::from_slice(key),
    );
    aes_gcm::aead::Aead::encrypt(&cipher, aes_gcm::Nonce::from_slice(nonce), plaintext).ok()
}

/// Decrypts with AES-256-GCM. Trusted: the result is `aes256gcm_open(..)`.
#[verifier::external_body]
fn aes256gcm_decrypt(key: &[u8], nonce: &[u8], ciphertext: &[u8]) -> (r: Option<Vec<u8>>)
    requires
        key@.len() == 32,
        nonce@.len() == NONCE_LEN,
    ensures
        match r {
            Some(p) => aes256gcm_open(key@, nonce@, ciphertext@) == Some(p@),
            None => aes256gcm_open(key@, nonce@, ciphertext@) is None,
        },
{
    let cipher: aes_gcm::Aes256Gcm = aes_gcm::aead::KeyInit::new(
        aes_gcm::Key::<aes_gcm::Aes256Gcm>::from_slice(key),
    );
    aes_gcm::aead::Aead::decrypt(&cipher, aes_gcm::Nonce::from_slice(nonce), ciphertext).ok()
}

/// Standard base64 with padding (`base64::engine::general_purpose::STANDARD.encode`).
pub uninterp spec fn standard_base64_encode(bytes: Seq<u8>) -> Seq<char>;

/// Standard base64 decoding (`STANDARD.decode`) of the UTF-8 bytes of `text`:
/// the bytes, or the text of the decoder's error.
pub uninterp spec fn standard_base64_decode(text: Seq<char>) -> Result<Seq<u8>, Seq<char>>;

/// Encodes as standard base64. Trusted: the result is `standard_base64_encode(bytes)`,
/// and decoding it with the same engine gives the bytes back.
#[verifier::external_body]
fn base64_standard_encode(bytes: &[u8]) -> (r: String)
    ensures
        r@ == standard_base64_encode(bytes@),
        standard_base64_decode(r@) is Ok && standard_base64_decode(r@)->Ok_0 == bytes@,
{
    base64::Engine::encode(&base64::engine::general_purpose::STANDARD, bytes)
}

/// Decodes standard base64, turning the decoder's error into its display text.
/// Trusted: the result is `standard_base64_decode(text)`.
#[verifier::external_body]
fn base64_standard_decode(text: &str) -> (r: Result<Vec<u8>, String>)
    ensures
        match r {
            Ok(b) => standard_base64_decode(text@) == Ok::<Seq<u8>, Seq<char>>(b@),
            Err(e) => standard_base64_decode(text@) == Err::<Seq<u8>, Seq<char>>(e@),
        },
{
    base64::Engine::decode(&base64::engine::general_purpose::STANDARD, text.as_bytes()).map_err(
        |e| e.to_string(),
    )
}

/// Fills `n` bytes from the thread-local CSPRNG (`rand::thread_rng().fill_bytes`).
/// Only the length is promised.
#[verifier::external_body]
pub(crate) fn random_bytes(n: usize) -> (r: Vec<u8>)
    ensures
        r@.len() == n,
{
    let mut v = vec![0u8; n];
    rand::RngCore::fill_bytes(&mut rand::thread_rng(), &mut v);
    v
}

/// The stable machine identifier: the platform's machine UID when it could be
/// read, else `fallback::<hostname>::<user>` with `unknown-host` / `unknown-user`
/// standing in for what could not be read (`USER`, then `USERNAME`).
pub open spec fn spec_machine_id(
    uid: Option<Seq<char>>,
    hostname: Option<Seq<char>>,
    user: Option<Seq<char>>,
    username: Option<Seq<char>>,
) -> Seq<char> {
    match uid {
        Some(u) => u,
        None => {
            let h = match hostname {
                Some(h) => h,
                None => "unknown-host"@,
            };
            let u = match user {
                Some(u) => u,
                None => match username {
                    Some(u) => u,
                    None => "unknown-user"@,
                },
            };
            "fallback::"@ + h + "::"@ + u
        },
    }
}

/// Builds the machine identifier bytes (UTF-8) from what the platform reported:
/// the machine UID, the hostname, and the `USER` / `USERNAME` variables.
pub fn machine_id_from(
    uid: Option<String>,
    hostname: Option<String>,
    user: Option<String>,
    username: Option<String>,
) -> (r: Vec<u8>)
    ensures
        r@ == vstd::utf8::encode_utf8(
            spec_machine_id(opt_chars(uid), opt_chars(hostname), opt_chars(user), opt_chars(username)),
        ),
{
    let id = match uid {
        Some(u) => u,
        None => {
            let h = match hostname {
                Some(h) => h,
                None => String::from_str("unknown-host"),
            };
            let u = match user {
                Some(u) => u,
                None => match username {
                    Some(u) => u,
                    None => String::from_str("unknown-user"),
                },
            };
            let mut s = String::from_str("fallback::");
            s.append(h.as_str());
            s.append("::");
            s.append(u.as_str());
            s
        },
    };
    id.as_str().as_bytes_vec()
}

/// The 32-byte AES key of a machine.
pub open spec fn spec_derive_key(machine_id: Seq<u8>) -> Seq<u8> {
    hkdf_sha256_okm32(APP_SALT.spec_bytes(), machine_id, KDF_INFO.spec_bytes())
}

/// The key is HKDF-SHA256 with the salt `11eOverlay/v1/aes-gcm-key` and the
/// info string `11eOverlay/overlay-tokens/v1` (their UTF-8 bytes) over the
/// machine identifier.
pub proof fn derive_key_uses_app_salt_and_info(machine_id: Seq<u8>)
    ensures
        spec_derive_key(machine_id) == hkdf_sha256_okm32(
            vstd::utf8::encode_utf8("11eOverlay/v1/aes-gcm-key"@),
            machine_id,
            vstd::utf8::encode_utf8("11eOverlay/overlay-tokens/v1"@),
        ),
{
}

/// Derives the 32-byte AES-256 key from the machine identifier with HKDF-SHA256.
pub fn derive_key(machine_id: &[u8]) -> (k: Vec<u8>)
    ensures
        k@ == spec_derive_key(machine_id@),
        k@ == hkdf_sha256_okm32(
            vstd::utf8::encode_utf8("11eOverlay/v1/aes-gcm-key"@),
            machine_id@,
            vstd::utf8::encode_utf8("11eOverlay/overlay-tokens/v1"@),
        ),
        k@.len() == 32,
{
    hkdf_sha256_expand32(APP_SALT.as_bytes(), machine_id, KDF_INFO.as_bytes())
}

/// The blob that encrypting `plaintext` under `key` with `nonce` yields:
/// `base64(nonce || ciphertext_with_tag)`, or the message for an oversized plaintext.
pub open spec fn spec_seal_blob(key: Seq<u8>, nonce: Seq<u8>, plaintext: Seq<u8>) -> Result<
    Seq<char>,
    Seq<char>,
> {
    if plaintext.len() <= AES_GCM_P_MAX {
        Ok(standard_base64_encode(nonce + aes256gcm_seal(key, nonce, plaintext)))
    } else {
        Err("encrypt failed: aead::Error"@)
    }
}

/// What decrypting `blob` under `key` yields: the plaintext, or the message of
/// the first failing step (base64, length, authentication).
pub open spec fn spec_open_blob(key: Seq<u8>, blob: Seq<char>) -> Result<Seq<u8>, Seq<char>> {
    match standard_base64_decode(blob) {
        Err(e) => Err("base64 decode: "@ + e),
        Ok(raw) => if raw.len() < NONCE_LEN + TAG_LEN {
            Err("ciphertext too short"@)
        } else {
            match aes256gcm_open(key, raw.take(NONCE_LEN as int), raw.skip(NONCE_LEN as int)) {
                Some(p) => Ok(p),
                None => Err("decrypt failed: aead::Error"@),
            }
        },
    }
}

/// What `decrypt` yields for a blob on the machine with this identifier.
pub open spec fn spec_decrypt(blob: Seq<char>, machine_id: Seq<u8>) -> Result<Seq<u8>, Seq<char>> {
    spec_open_blob(spec_derive_key(machine_id), blob)
}

/// Plain value of a string result.
pub open spec fn string_result_view(r: Result<String, String>) -> Result<Seq<char>, Seq<char>> {
    match r {
        Ok(s) => Ok(s@),
        Err(e) => Err(e@),
    }
}

/// Plain value of a bytes result.
pub open spec fn bytes_result_view(r: Result<Vec<u8>, String>) -> Result<Seq<u8>, Seq<char>> {
    match r {
        Ok(b) => Ok(b@),
        Err(e) => Err(e@),
    }
}

/// The layout of a blob: base64-decoding it gives the nonce followed by the
/// sealed text, which is the plaintext's length plus the 16-byte tag, so the
/// decoded blob is 28 bytes longer than the plaintext.
pub open spec fn blob_layout(key: Seq<u8>, nonce: Seq<u8>, plaintext: Seq<u8>, blob: Seq<char>) -> bool {
    &&& standard_base64_decode(blob) == Ok::<Seq<u8>, Seq<char>>(nonce + aes256gcm_seal(key, nonce, plaintext))
    &&& aes256gcm_seal(key, nonce, plaintext).len() == plaintext.len() + TAG_LEN
    &&& (nonce + aes256gcm_seal(key, nonce, plaintext)).len() == plaintext.len() + NONCE_LEN + TAG_LEN
}

/// Encrypts `plaintext` under `key` with the given nonce.
pub fn encrypt_with_nonce(plaintext: &[u8], key: &[u8], nonce: &[u8]) -> (r: Result<String, String>)
    requires
        key@.len() == 32,
        nonce@.len() == NONCE_LEN,
    ensures
        string_result_view(r) == spec_seal_blob(key@, nonce@, plaintext@),
        r matches Ok(b) ==> spec_open_blob(key@, b@) == Ok::<Seq<u8>, Seq<char>>(plaintext@),
        r matches Ok(b) ==> blob_layout(key@, nonce@, plaintext@, b@),
{
    match aes256gcm_encrypt(key, nonce, plaintext) {
        None => Err(String::from_str("encrypt failed: aead::Error")),
        Some(ciphertext) => {
            let mut out: Vec<u8> = Vec::new();
            out.extend_from_slice(nonce);
            out.extend_from_slice(ciphertext.as_slice());
            assert(out@ == nonce@ + ciphertext@);
            let blob = base64_standard_encode(out.as_slice());
            proof {
                let raw = nonce@ + ciphertext@;
                assert(raw.take(NONCE_LEN as int) =~= nonce@);
                assert(raw.skip(NONCE_LEN as int) =~= ciphertext@);
            }
            Ok(blob)
        },
    }
}

/// Decrypts a blob with `key`.
pub fn decrypt_with_key(blob: &str, key: &[u8]) -> (r: Result<Vec<u8>, String>)
    requires
        key@.len() == 32,
    ensures
        bytes_result_view(r) == spec_open_blob(key@, blob@),
{
    let mut raw = match base64_standard_decode(blob) {
        Err(e) => {
            let mut m = String::from_str("base64 decode: ");
            m.append(e.as_str());
            return Err(m);
        },
        Ok(raw) => raw,
    };
    if raw.len() < NONCE_LEN + TAG_LEN {
        return Err(String::from_str("ciphertext too short"));
    }
    let ghost whole = raw@;
    let ciphertext = raw.split_off(NONCE_LEN);
    assert(raw@ == whole.take(NONCE_LEN as int));
    assert(ciphertext@ == whole.skip(NONCE_LEN as int));
    match aes256gcm_decrypt(key, raw.as_slice(), ciphertext.as_slice()) {
        Some(p) => Ok(p),
        None => Err(String::from_str("decrypt failed: aead::Error")),
    }
}

/// Encrypts plaintext bytes for the machine with this identifier under a fresh
/// random nonce. Output: `base64(nonce_12 || ciphertext_with_tag)`.
pub fn encrypt(plaintext: &[u8], machine_id: &[u8]) -> (r: Result<String, String>)
    ensures
        exists|nonce: Seq<u8>|
            nonce.len() == NONCE_LEN && string_result_view(r) == #[trigger] spec_seal_blob(
                spec_derive_key(machine_id@),
                nonce,
                plaintext@,
            ) && (r matches Ok(b) ==> blob_layout(spec_derive_key(machine_id@), nonce, plaintext@, b@)),
        r is Ok <==> plaintext@.len() <= AES_GCM_P_MAX,
        r matches Ok(b) ==> spec_decrypt(b@, machine_id@) == Ok::<Seq<u8>, Seq<char>>(plaintext@),
{
    let key = derive_key(machine_id);
    let nonce = random_bytes(NONCE_LEN);
    encrypt_with_nonce(plaintext, key.as_slice(), nonce.as_slice())
}

/// Decrypts a blob produced by `encrypt` on the machine with this identifier.
/// Fails when the blob is not base64, is truncated, or does not authenticate
/// (other machine, other salt, or altered blob).
pub fn decrypt(blob: &str, machine_id: &[u8]) -> (r: Result<Vec<u8>, String>)
    ensures
        bytes_result_view(r) == spec_decrypt(blob@, machine_id@),
{
    let key = derive_key(machine_id);
    decrypt_with_key(blob, key.as_slice())
}

} // verus!
