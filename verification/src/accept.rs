//! The RFC 6455 accept-key computation: the server proves that it understood
//! the client's `Sec-WebSocket-Key` nonce by answering with
//! `base64(SHA1(key ++ GUID))` for a fixed GUID.
use vstd::prelude::*;
use vstd::string::StringSliceAdditionalSpecFns;
use sha1::Digest;
use base64::Engine;

verus! {

/// What the SHA-1 digest of a byte sequence is. The algorithm itself is
/// supplied by an outside crate; nothing here restates it.
pub uninterp spec fn sha1_of(data: Seq<u8>) -> Seq<u8>;

/// What the standard (padded) base64 encoding of a byte sequence is. The
/// encoder is supplied by an outside crate; nothing here restates it.
pub uninterp spec fn base64_of(data: Seq<u8>) -> Seq<char>;

/// Relies on sha1::Sha1 via the digest::Digest trait: the digest is a
/// function of the input bytes alone, and is always 20 bytes long.
#[verifier::external_body]
fn sha1_digest(data: &Vec<u8>) -> (r: Vec<u8>)
    ensures
        r@ == sha1_of(data@),
        r@.len() == 20,
{
    sha1::Sha1::digest(data.as_slice()).to_vec()
}

/// Relies on base64's STANDARD engine (base64::Engine::encode): the encoding
/// is a function of the input bytes alone. The encoder panics when the
/// encoded length would overflow usize, so inputs anywhere near that size
/// are kept out.
#[verifier::external_body]
fn base64_encode(data: &Vec<u8>) -> (r: String)
    requires
        data@.len() <= usize::MAX / 4,
    ensures
        r@ == base64_of(data@),
{
    base64::engine::general_purpose::STANDARD.encode(data.as_slice())
}

/// The fixed GUID that RFC 6455 appends to the client key before hashing.
pub open spec fn guid_bytes() -> Seq<u8> {
    ("258EAFA5-E914-47DA-95CA-C5AB0DC85B11").spec_bytes()
}

/// The accept value owed for a client key, as a function of the key's raw
/// bytes: base64 of the SHA-1 digest of the key followed by the GUID.
pub open spec fn accept_key_of(key: Seq<u8>) -> Seq<char> {
    base64_of(sha1_of(key + guid_bytes()))
}

/// The computed handshake accept value. Exactly one is derived per validated
/// handshake, deterministically from the client key.
pub struct Accept {
    value: String,
}

impl View for Accept {
    type V = Seq<char>;

    closed spec fn view(&self) -> Seq<char> {
        self.value@
    }
}

impl Accept {
    /// Derive the accept value from the client's `Sec-WebSocket-Key` header.
    /// Cannot fail: every string has a well-defined accept value.
    pub fn from_key(key: &str) -> (r: Accept)
        ensures
            r@ == accept_key_of(key.spec_bytes()),
    {
        let mut data: Vec<u8> = Vec::new();
        data.extend_from_slice(key.as_bytes());
        let guid: &str = "258EAFA5-E914-47DA-95CA-C5AB0DC85B11";
        data.extend_from_slice(guid.as_bytes());
        proof {
            assert(data@ =~= key.spec_bytes() + guid_bytes());
        }
        let digest = sha1_digest(&data);
        Accept { value: base64_encode(&digest) }
    }

    /// The accept value as a string, ready to be placed in the
    /// `Sec-WebSocket-Accept` response header.
    pub fn as_str(&self) -> (r: &str)
        ensures
            r@ == self@,
    {
        self.value.as_str()
    }

    /// The accept value as an owned string.
    pub fn into_string(self) -> (s: String)
        ensures
            s@ == self@,
    {
        self.value
    }
}

} // verus!
