//! Compact, URL-safe identifiers of 16 alphanumeric characters.
use crate::common::codec::{is_ascii_alphanumeric, nanoid_format};
use crate::common::text::chars_of;
use vstd::prelude::*;
use vstd::string::StringSliceAdditionalSpecFns;
use vstd::utf8::{encode_utf8, is_ascii_chars_encode_utf8};

verus! {

/// The length of a [`NanoId`].
pub const NANO_ID_LENGTH: usize = 16;

/// The 62 characters identifiers are drawn from.
pub const ALPHANUMERIC: [char; 62] = [
    '0', '1', '2', '3', '4', '5', '6', '7', '8', '9', 'A', 'B', 'C', 'D', 'E', 'F', 'G', 'H', 'I',
    'J', 'K', 'L', 'M', 'N', 'O', 'P', 'Q', 'R', 'S', 'T', 'U', 'V', 'W', 'X', 'Y', 'Z', 'a', 'b',
    'c', 'd', 'e', 'f', 'g', 'h', 'i', 'j', 'k', 'l', 'm', 'n', 'o', 'p', 'q', 'r', 's', 't', 'u',
    'v', 'w', 'x', 'y', 'z',
];

pub open spec fn all_alphanumeric(s: Seq<char>) -> bool {
    forall|i: int| 0 <= i < s.len() ==> is_ascii_alphanumeric(#[trigger] s[i])
}

/// An alphanumeric text takes one byte per character.
pub proof fn lemma_alphanumeric_bytes(s: Seq<char>)
    requires
        all_alphanumeric(s),
    ensures
        encode_utf8(s).len() == s.len(),
{
    assert forall|i: int| 0 <= i < s.len() implies '\0' <= #[trigger] s[i] <= '\u{7f}' by {
        assert(is_ascii_alphanumeric(s[i]));
    }
    is_ascii_chars_encode_utf8(s);
}

/// Why a text is not a valid identifier.
#[derive(Debug, PartialEq, Eq, Structural, Clone, Copy)]
pub enum NanoIdError {
    InvalidLength,
    InvalidCharacter,
}

impl NanoIdError {
    /// The human-readable description of the error.
    pub fn message(&self) -> (r: String)
        ensures
            *self == NanoIdError::InvalidLength ==> r@ == "nanoid must be 16 characters"@,
            *self == NanoIdError::InvalidCharacter ==> r@ == "nanoid must contain only alphanumeric characters"@,
    {
        match self {
            NanoIdError::InvalidLength => "nanoid must be 16 characters".to_string(),
            NanoIdError::InvalidCharacter => "nanoid must contain only alphanumeric characters".to_string(),
        }
    }
}

/// The check a candidate identifier faces: first its length in bytes, then its characters.
pub open spec fn nano_id_check(bytes_len: nat, chars: Seq<char>) -> Result<(), NanoIdError> {
    if bytes_len != 16 {
        Err(NanoIdError::InvalidLength)
    } else if !all_alphanumeric(chars) {
        Err(NanoIdError::InvalidCharacter)
    } else {
        Ok(())
    }
}

/// Compact, URL-safe identifier (16 alphanumeric characters).
#[derive(Debug)]
pub struct NanoId(String);

impl NanoId {
    /// Every identifier, however made, is 16 ASCII letters and digits.
    #[verifier::type_invariant]
    spec fn sixteen_alphanumerics(self) -> bool {
        self.0@.len() == NANO_ID_LENGTH && all_alphanumeric(self.0@)
    }
}

impl NanoId {
    /// The text of the identifier.
    pub closed spec fn text(self) -> String {
        self.0
    }
}

impl View for NanoId {
    type V = Seq<char>;

    closed spec fn view(&self) -> Seq<char> {
        self.0@
    }
}

/// Characters of the alphabet as a slice.
fn alphabet() -> (r: &'static [char])
    ensures
        r@.len() == 62,
        forall|i: int| 0 <= i < r@.len() ==> is_ascii_alphanumeric(#[trigger] r@[i]),
        forall|i: int| 0 <= i < r@.len() ==> (#[trigger] r@[i] as u32) < 128,
{
    let a: &'static [char] = &ALPHANUMERIC;
    proof {
        assert(a@ =~= ALPHANUMERIC@);
        assert forall|i: int| 0 <= i < a@.len() implies is_ascii_alphanumeric(#[trigger] a@[i]) && (a@[i] as u32) < 128 by {
            assert(ALPHANUMERIC@[i] == ALPHANUMERIC[i]);
        }
    }
    a
}

impl NanoId {
    /// A fresh random identifier.
    pub fn new() -> (r: Self)
        ensures
            r@.len() == 16,
            all_alphanumeric(r@),
    {
        NanoId(NanoId::generate(NANO_ID_LENGTH))
    }

    /// A random alphanumeric text of `len` characters.
    pub fn generate(len: usize) -> (r: String)
        requires
            1 <= len <= usize::MAX / 8,
        ensures
            r@.len() == len,
            all_alphanumeric(r@),
    {
        let a = alphabet();
        let r = nanoid_format(a, len);
        assert forall|i: int| 0 <= i < r@.len() implies is_ascii_alphanumeric(#[trigger] r@[i]) by {
            let k = choose|k: int| 0 <= k < a@.len() && a@[k] == r@[i];
            assert(is_ascii_alphanumeric(a@[k]));
        }
        r
    }

    pub fn into_inner(self) -> (r: String)
        ensures
            r@ == self@,
            r@.len() == 16,
            all_alphanumeric(r@),
    {
        proof { use_type_invariant(&self); }
        self.0
    }

    pub fn as_str(&self) -> (r: &str)
        ensures
            r@ == self@,
            r@.len() == 16,
            all_alphanumeric(r@),
    {
        proof { use_type_invariant(self); }
        self.0.as_str()
    }

    /// Checks that `value` is 16 bytes long and holds only ASCII letters and digits.
    pub fn validate(value: &str) -> (r: Result<(), NanoIdError>)
        ensures
            r == nano_id_check(value.spec_bytes().len(), value@),
    {
        let bytes = value.as_bytes();
        if bytes.len() != NANO_ID_LENGTH {
            return Err(NanoIdError::InvalidLength);
        }
        assert(value.spec_bytes().len() == 16);
        let chars = chars_of(value);
        let mut i: usize = 0;
        while i < chars.len()
            invariant
                i <= chars@.len(),
                chars@ == value@,
                value.spec_bytes().len() == 16,
                forall|k: int| 0 <= k < i ==> is_ascii_alphanumeric(#[trigger] chars@[k]),
            decreases chars@.len() - i,
        {
            let c = chars[i];
            if !(('0' <= c && c <= '9') || ('A' <= c && c <= 'Z') || ('a' <= c && c <= 'z')) {
                assert(!is_ascii_alphanumeric(value@[i as int]));
                assert(!all_alphanumeric(value@));
                return Err(NanoIdError::InvalidCharacter);
            }
            i = i + 1;
        }
        Ok(())
    }

    /// Parses a text into an identifier, refusing what [`NanoId::validate`] refuses.
    pub fn parse(s: &str) -> (r: Result<NanoId, NanoIdError>)
        ensures
            nano_id_check(s.spec_bytes().len(), s@) is Ok ==> (r matches Ok(id) && id@ == s@),
            nano_id_check(s.spec_bytes().len(), s@) matches Err(e) ==> r == Err::<NanoId, NanoIdError>(e),
    {
        NanoId::validate(s)?;
        proof { lemma_alphanumeric_bytes(s@); }
        Ok(NanoId(s.to_string()))
    }

    /// Takes ownership of a text as an identifier, refusing what [`NanoId::validate`] refuses.
    pub fn try_from_string(value: String) -> (r: Result<NanoId, NanoIdError>)
        ensures
            nano_id_check(vstd::utf8::encode_utf8(value@).len(), value@) is Ok ==> (r matches Ok(id) && id@ == value@),
            nano_id_check(vstd::utf8::encode_utf8(value@).len(), value@) matches Err(e) ==> r == Err::<NanoId, NanoIdError>(e),
    {
        NanoId::validate(value.as_str())?;
        proof { lemma_alphanumeric_bytes(value@); }
        Ok(NanoId(value))
    }
}

impl Clone for NanoId {
    fn clone(&self) -> (r: Self)
        ensures
            r@ == self@,
    {
        proof { use_type_invariant(self); }
        NanoId(self.0.clone())
    }
}

impl Default for NanoId {
    /// A fresh random identifier, as [`NanoId::new`].
    fn default() -> (r: Self)
        ensures
            r@.len() == 16,
            all_alphanumeric(r@),
    {
        NanoId::new()
    }
}

impl From<NanoId> for String {
    fn from(id: NanoId) -> (r: String) {
        proof { use_type_invariant(&id); }
        id.0
    }
}

impl vstd::std_specs::convert::FromSpecImpl<NanoId> for String {
    open spec fn obeys_from_spec() -> bool {
        true
    }

    open spec fn from_spec(v: NanoId) -> String {
        v.text()
    }
}

/// The text an identifier converts to is the identifier's own.
pub proof fn lemma_text_view(id: NanoId)
    ensures
        id.text()@ == id@,
{
}

} // verus!
