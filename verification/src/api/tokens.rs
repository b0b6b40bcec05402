//! The token cache and its encrypted-at-rest copy.
//!
//! The in-memory bundle lives in a `TokenStore`; the persisted copy is the
//! settings field `encryptedTokens`, a blob made by `crypto::encrypt` from the
//! bundle's serialized bytes. Reading and writing the settings file, and the
//! serialization itself, happen around these functions.

use vstd::prelude::*;
use crate::api::crypto::{blob_layout, decrypt, encrypt, spec_decrypt, spec_derive_key, spec_seal_blob, AES_GCM_P_MAX, NONCE_LEN};
use crate::api::types::{TokenBundle, TokenBundleView};
use crate::text::opt_chars;

verus! {

/// In-memory token cache.
#[derive(Clone)]
pub struct TokenStore {
    inner: Option<TokenBundle>,
}

/// The plain value of an optional bundle.
pub open spec fn opt_bundle_view(o: Option<TokenBundle>) -> Option<TokenBundleView> {
    match o {
        Some(b) => Some(b@),
        None => None,
    }
}

/// The plaintext held by a persisted blob field on this machine, if it decrypts.
pub open spec fn spec_stored_plaintext(field: Option<Seq<char>>, machine_id: Seq<u8>) -> Option<Seq<u8>> {
    match field {
        None => None,
        Some(blob) => match spec_decrypt(blob, machine_id) {
            Ok(p) => Some(p),
            Err(_) => None,
        },
    }
}

impl View for TokenStore {
    type V = Option<TokenBundleView>;

    closed spec fn view(&self) -> Option<TokenBundleView> {
        opt_bundle_view(self.inner)
    }
}

impl Default for TokenStore {
    fn default() -> (r: TokenStore)
        ensures
            r@ is None,
    {
        TokenStore { inner: None }
    }
}

impl TokenStore {
    /// A cache holding `bundle` (what was read back from disk, if anything).
    pub fn from_cached(bundle: Option<TokenBundle>) -> (r: TokenStore)
        ensures
            r@ == opt_bundle_view(bundle),
    {
        TokenStore { inner: bundle }
    }

    /// The plaintext of the persisted blob, when there is one and it decrypts
    /// on this machine; a blob that fails to decrypt counts as no tokens.
    pub fn stored_plaintext(encrypted_tokens: &Option<String>, machine_id: &[u8]) -> (r: Option<Vec<u8>>)
        ensures
            match r {
                Some(p) => spec_stored_plaintext(opt_chars(*encrypted_tokens), machine_id@) == Some(p@),
                None => spec_stored_plaintext(opt_chars(*encrypted_tokens), machine_id@) is None,
            },
    {
        match encrypted_tokens {
            None => None,
            Some(blob) => match decrypt(blob.as_str(), machine_id) {
                Ok(p) => Some(p),
                Err(_) => None,
            },
        }
    }

    /// A copy of the cached bundle.
    pub fn get(&self) -> (r: Option<TokenBundle>)
        ensures
            opt_bundle_view(r) == self@,
    {
        match &self.inner {
            Some(b) => Some(b.duplicate()),
            None => None,
        }
    }

    /// Whether a bundle is cached.
    pub fn is_authenticated(&self) -> (r: bool)
        ensures
            r == self@ is Some,
    {
        self.inner.is_some()
    }

    /// Persists the bundle: encrypts its serialized bytes `plaintext` into the
    /// blob field, then caches the bundle. On failure nothing changes.
    /// The stored blob decrypts on this machine back to `plaintext`.
    pub fn store(
        &mut self,
        bundle: TokenBundle,
        plaintext: &[u8],
        machine_id: &[u8],
        encrypted_tokens: &mut Option<String>,
    ) -> (r: Result<(), String>)
        ensures
            r is Ok <==> plaintext@.len() <= AES_GCM_P_MAX,
            r is Ok ==> {
                &&& final(self)@ == Some(bundle@)
                &&& *final(encrypted_tokens) is Some
                &&& exists|nonce: Seq<u8>|
                    nonce.len() == NONCE_LEN && #[trigger] spec_seal_blob(
                        spec_derive_key(machine_id@),
                        nonce,
                        plaintext@,
                    ) == Ok::<Seq<char>, Seq<char>>(final(encrypted_tokens)->Some_0@) && blob_layout(
                        spec_derive_key(machine_id@),
                        nonce,
                        plaintext@,
                        final(encrypted_tokens)->Some_0@,
                    )
                &&& spec_stored_plaintext(opt_chars(*final(encrypted_tokens)), machine_id@)
                    == Some(plaintext@)
            },
            r matches Err(e) ==> {
                &&& e@ == "encrypt failed: aead::Error"@
                &&& final(self)@ == old(self)@
                &&& *final(encrypted_tokens) == *old(encrypted_tokens)
            },
    {
        let blob = encrypt(plaintext, machine_id);
        match blob {
            Err(e) => Err(e),
            Ok(b) => {
                *encrypted_tokens = Some(b);
                self.inner = Some(bundle);
                Ok(())
            },
        }
    }

    /// Forgets the cached bundle and wipes the blob field; returns whether the
    /// field held a blob (and so the settings must be written back).
    pub fn clear(&mut self, encrypted_tokens: &mut Option<String>) -> (changed: bool)
        ensures
            final(self)@ is None,
            *final(encrypted_tokens) is None,
            changed == (*old(encrypted_tokens) is Some),
    {
        self.inner = None;
        TokenStore::clear_disk_sync(encrypted_tokens)
    }

    /// Wipes the blob field only; returns whether it held a blob.
    pub fn clear_disk_sync(encrypted_tokens: &mut Option<String>) -> (changed: bool)
        ensures
            *final(encrypted_tokens) is None,
            changed == (*old(encrypted_tokens) is Some),
    {
        if encrypted_tokens.is_some() {
            *encrypted_tokens = None;
            true
        } else {
            false
        }
    }
}

} // verus!
