//! The key that view-later API keys are encrypted under, read from configuration.
use crate::common::codec::{decode_base64_standard, trim_text};
use crate::common::crypto::decoded_master_key;
use crate::common::text::{concat2, decimal, decimal_text};
use vstd::prelude::*;

verus! {

/// A 32-byte encryption key provided by the environment.
pub struct EnvKeyProvider {
    key: [u8; 32],
}

impl EnvKeyProvider {
    pub closed spec fn key(self) -> Seq<u8> {
        self.key@
    }

    /// `b64_key` must be the standard base64 encoding of exactly 32 bytes
    /// (surrounding whitespace is ignored).
    pub fn from_b64(b64_key: &str) -> (r: Result<Self, String>)
        ensures
            decoded_master_key(b64_key@) is None ==> (r matches Err(m)
                && m@ == "API_KEY_ENCRYPTION_KEY must be standard base64-encoded"@),
            decoded_master_key(b64_key@) matches Some(k) ==> (k.len() != 32 ==> (r matches Err(m)
                && m@ == "API_KEY_ENCRYPTION_KEY must decode to 32 bytes, got "@ + decimal(k.len()))),
            decoded_master_key(b64_key@) matches Some(k) ==> (k.len() == 32 ==> (r matches Ok(p)
                && p.key() == k)),
    {
        let trimmed_text = trim_text(b64_key);
        let bytes = match decode_base64_standard(trimmed_text.as_bytes()) {
            Some(k) => k,
            None => return Err("API_KEY_ENCRYPTION_KEY must be standard base64-encoded".to_string()),
        };
        if bytes.len() != 32 {
            let n = decimal_text(bytes.len() as u64);
            return Err(concat2("API_KEY_ENCRYPTION_KEY must decode to 32 bytes, got ", n.as_str()));
        }
        let mut key = [0u8; 32];
        let mut i: usize = 0;
        while i < 32
            invariant
                bytes@.len() == 32,
                i <= 32,
                forall|k: int| 0 <= k < i ==> key@[k] == bytes@[k],
            decreases 32 - i,
        {
            key[i] = bytes[i];
            i = i + 1;
        }
        assert(key@ =~= bytes@);
        Ok(EnvKeyProvider { key })
    }

    /// The encryption key.
    pub fn get_encryption_key(&self) -> (r: [u8; 32])
        ensures
            r@ == self.key(),
    {
        self.key
    }
}

} // verus!
