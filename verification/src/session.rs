//! Session keys: fingerprints of raw session credentials.
//!
//! A key is derived from a credential by a one-way hash, so that caches and
//! lock tables can be indexed by session without holding the credential.

use vstd::prelude::*;
use vstd::slice::slice_subrange;
use vstd::string::StringSliceAdditionalSpecFns;
use sha2::Digest;
use sha2::Sha256;
use crate::hex;
use crate::text::chars_of;
use crate::text::push_str;
use crate::text::string_of;

verus! {

/// The SHA-256 digest of a byte string.
pub uninterp spec fn sha256(data: Seq<u8>) -> Seq<u8>;

/// Number of digest bytes that go into a key.
pub const KEY_BYTES: usize = 16;

/// Number of characters of a key that its redacted form shows.
pub const SHOWN_CHARS: usize = 8;

/// The key text for a credential: the first sixteen digest bytes of its UTF-8
/// form, in lower-case hexadecimal.
pub open spec fn fingerprint(credential: Seq<u8>) -> Seq<char> {
    hex::encoded(sha256(credential).take(KEY_BYTES as int))
}

/// The redacted form of a key text: at most its first eight characters,
/// followed by three dots.
pub open spec fn redacted_text(key: Seq<char>) -> Seq<char> {
    key.take(if key.len() < SHOWN_CHARS { key.len() as int } else { SHOWN_CHARS as int })
        + "..."@
}

/// Calls `Sha256::digest` of the sha2 crate: the SHA-256 digest of `data`,
/// which is always 32 bytes long.
#[verifier::external_body]
fn sha256_digest(data: &[u8]) -> (digest: Vec<u8>)
    ensures
        digest@ == sha256(data@),
        digest@.len() == 32,
{
    Sha256::digest(data).to_vec()
}

/// Identity of a session for caching and locking.
#[derive(Debug, Clone, Hash, PartialEq, Eq)]
pub struct SessionKey(String);

impl View for SessionKey {
    type V = Seq<char>;

    closed spec fn view(&self) -> Seq<char> {
        self.0@
    }
}

impl SessionKey {
    /// Derives the key of the session that the raw cookie data belongs to.
    /// Equal credentials give equal keys; the key has 32 characters.
    pub fn from_cookie(cookie_value: &str) -> (key: SessionKey)
        ensures
            key@ == fingerprint(cookie_value.spec_bytes()),
            key@.len() == 2 * KEY_BYTES,
    {
        let digest = sha256_digest(cookie_value.as_bytes());
        let head = slice_subrange(digest.as_slice(), 0, KEY_BYTES);
        SessionKey(hex::encode(head))
    }

    /// Derives the key from the value of a `JSESSIONID` cookie.
    pub fn from_jsessionid(jsessionid: &str) -> (key: SessionKey)
        ensures
            key@ == fingerprint(jsessionid.spec_bytes()),
            key@.len() == 2 * KEY_BYTES,
    {
        SessionKey::from_cookie(jsessionid)
    }

    /// The key text.
    pub fn as_str(&self) -> (s: &str)
        ensures
            s@ == self@,
    {
        self.0.as_str()
    }

    /// The key text, taken out of the key.
    pub fn into_text(self) -> (s: String)
        ensures
            s@ == self@,
    {
        self.0
    }

    /// A form of the key fit for logs: its first eight characters and an
    /// ellipsis, so that the full key is not disclosed.
    pub fn redacted(&self) -> (s: String)
        ensures
            s@ == redacted_text(self@),
    {
        let chars = chars_of(self.0.as_str());
        let shown: usize = if chars.len() < SHOWN_CHARS {
            chars.len()
        } else {
            SHOWN_CHARS
        };
        let mut out: Vec<char> = Vec::new();
        let mut i: usize = 0;
        while i < shown
            invariant
                i <= shown <= chars.len(),
                out@ == chars@.take(i as int),
            decreases shown - i,
        {
            out.push(chars[i]);
            i += 1;
        }
        push_str(&mut out, "...");
        string_of(out)
    }
}

} // verus!
