//! The five RFC 6455 handshake preconditions, checked against an
//! already-parsed request, and the switching-protocols value built for a
//! request that passes all of them.
use vstd::prelude::*;
use vstd::string::StringSliceAdditionalSpecFns;
use vstd::utf8::encode_utf8;
use crate::accept::{accept_key_of, Accept};

verus! {

/// ASCII lower-casing of a single byte.
pub open spec fn lower(b: u8) -> u8 {
    if 65 <= b <= 90 {
        (b + 32) as u8
    } else {
        b
    }
}

/// Equality of two byte sequences up to ASCII case.
pub open spec fn eq_ignore_ascii_case(a: Seq<u8>, b: Seq<u8>) -> bool {
    a.len() == b.len() && forall|i: int| 0 <= i < a.len() ==> #[trigger] lower(a[i]) == lower(b[i])
}

/// The byte at which the first `", "` separator of a header value starts,
/// or the length of the value if it has none.
pub open spec fn first_sep(s: Seq<u8>) -> nat
    decreases s.len(),
{
    if s.len() < 2 {
        s.len()
    } else if s[0] == 44 && s[1] == 32 {
        0
    } else {
        1 + first_sep(s.drop_first())
    }
}

/// The bytes of the token `upgrade`.
pub open spec fn upgrade_token() -> Seq<u8> {
    ("upgrade").spec_bytes()
}

/// The bytes of the token `websocket`.
pub open spec fn websocket_token() -> Seq<u8> {
    ("websocket").spec_bytes()
}

/// Whether some `", "`-separated token of a `Connection` header value equals
/// `upgrade` up to ASCII case.
pub open spec fn has_upgrade_token(s: Seq<u8>) -> bool
    decreases s.len(),
{
    let i = first_sep(s);
    if i + 2 <= s.len() {
        eq_ignore_ascii_case(s.take(i as int), upgrade_token()) || has_upgrade_token(
            s.skip((i + 2) as int),
        )
    } else {
        eq_ignore_ascii_case(s, upgrade_token())
    }
}

fn lower_byte(b: u8) -> (r: u8)
    ensures
        r == lower(b),
{
    if 65 <= b && b <= 90 {
        b + 32
    } else {
        b
    }
}

fn bytes_eq_ignore_case(a: &[u8], b: &[u8]) -> (r: bool)
    ensures
        r == eq_ignore_ascii_case(a@, b@),
{
    if a.len() != b.len() {
        return false;
    }
    let n = a.len();
    let mut i: usize = 0;
    while i < n
        invariant
            i <= n,
            n == a@.len(),
            a@.len() == b@.len(),
            forall|j: int| 0 <= j < i ==> #[trigger] lower(a@[j]) == lower(b@[j]),
        decreases n - i,
    {
        if lower_byte(a[i]) != lower_byte(b[i]) {
            return false;
        }
        i += 1;
    }
    true
}

fn bytes_eq(a: &[u8], b: &[u8]) -> (r: bool)
    ensures
        r == (a@ == b@),
{
    if a.len() != b.len() {
        return false;
    }
    let n = a.len();
    let mut i: usize = 0;
    while i < n
        invariant
            i <= n,
            n == a@.len(),
            a@.len() == b@.len(),
            forall|j: int| 0 <= j < i ==> a@[j] == b@[j],
        decreases n - i,
    {
        if a[i] != b[i] {
            return false;
        }
        i += 1;
    }
    proof {
        assert(a@ =~= b@);
    }
    true
}

proof fn lemma_first_sep_at(s: Seq<u8>, i: int)
    requires
        0 <= i,
        i + 2 <= s.len(),
        s[i] == 44,
        s[i + 1] == 32,
        forall|k: int| 0 <= k < i ==> !((#[trigger] s[k]) == 44 && s[k + 1] == 32),
    ensures
        first_sep(s) == i,
    decreases s.len(),
{
    if i == 0 {
    } else {
        assert(!(s[0] == 44 && s[1] == 32));
        let t = s.drop_first();
        assert forall|k: int| 0 <= k < i - 1 implies !((#[trigger] t[k]) == 44 && t[k + 1] == 32) by {
            assert(!(s[k + 1] == 44 && s[k + 2] == 32));
        }
        lemma_first_sep_at(t, i - 1);
    }
}

proof fn lemma_first_sep_none(s: Seq<u8>)
    requires
        forall|k: int| 0 <= k && k + 2 <= s.len() ==> !((#[trigger] s[k]) == 44 && s[k + 1] == 32),
    ensures
        first_sep(s) == s.len(),
    decreases s.len(),
{
    if s.len() < 2 {
    } else {
        assert(!(s[0] == 44 && s[1] == 32));
        let t = s.drop_first();
        assert forall|k: int| 0 <= k && k + 2 <= t.len() implies !((#[trigger] t[k]) == 44 && t[k + 1] == 32) by {
            assert(!(s[k + 1] == 44 && s[k + 2] == 32));
        }
        lemma_first_sep_none(t);
    }
}

/// Whether a `Connection` header value names the `upgrade` option: the value
/// split on `", "` must contain a token case-insensitively equal to
/// `upgrade`.
pub fn connection_has_upgrade(value: &str) -> (r: bool)
    ensures
        r == has_upgrade_token(value.spec_bytes()),
{
    let bytes: &[u8] = value.as_bytes();
    let upgrade: &str = "upgrade";
    let up: &[u8] = upgrade.as_bytes();
    let n: usize = bytes.len();
    let mut start: usize = 0;
    proof {
        assert(bytes@.skip(0) =~= bytes@);
    }
    loop
        invariant
            start <= n,
            n == bytes@.len(),
            bytes@ == value.spec_bytes(),
            up@ == upgrade_token(),
            has_upgrade_token(value.spec_bytes()) == has_upgrade_token(
                bytes@.skip(start as int),
            ),
        decreases n - start,
    {
        let ghost rest = bytes@.skip(start as int);
        let mut j: usize = start;
        while n - j > 1 && !(bytes[j] == 44 && bytes[j + 1] == 32)
            invariant
                start <= j,
                j <= n,
                n == bytes@.len(),
                forall|k: int| start <= k < j ==> !((#[trigger] bytes@[k]) == 44 && bytes@[k + 1] == 32),
            decreases n - j,
        {
            j += 1;
        }
        if n - j > 1 {
            // a separator starts at j; the current token is bytes[start..j]
            proof {
                assert forall|k: int| 0 <= k < j - start implies !((#[trigger] rest[k]) == 44 && rest[k
                    + 1] == 32) by {
                    assert(!(bytes@[start + k] == 44 && bytes@[start + k + 1] == 32));
                }
                lemma_first_sep_at(rest, j - start);
            }
            let token: &[u8] = &bytes[start..j];
            proof {
                assert(token@ =~= rest.take(j - start));
            }
            if bytes_eq_ignore_case(token, up) {
                return true;
            }
            proof {
                assert(rest.skip((j - start + 2) as int) =~= bytes@.skip((j + 2) as int));
            }
            start = j + 2;
        } else {
            // no separator remains; the last token runs to the end
            proof {
                assert forall|k: int| 0 <= k && k + 2 <= rest.len() implies !((#[trigger] rest[k]) == 44
                    && rest[k + 1] == 32) by {
                    assert(!(bytes@[start + k] == 44 && bytes@[start + k + 1] == 32));
                }
                lemma_first_sep_none(rest);
            }
            let token: &[u8] = &bytes[start..n];
            proof {
                assert(token@ =~= rest);
            }
            let r = bytes_eq_ignore_case(token, up);
            return r;
        }
    }
}

/// An upgrade request as the handshake reads it: the method and the values
/// of the headers the five preconditions look at. A header the request did
/// not carry (or whose value was not a string) is `None`.
pub struct HandshakeRequest {
    pub method: String,
    pub connection: Option<String>,
    pub upgrade: Option<String>,
    pub version: Option<String>,
    pub key: Option<String>,
}

/// Why a request was rejected: the first handshake precondition it violates,
/// in the order the checks run.
#[derive(Debug, PartialEq, Eq)]
pub enum HandshakeError {
    /// The method is not `GET`.
    MethodNotGet,
    /// The `Connection` header is missing or no token of it is `upgrade`.
    ConnectionMissingUpgrade,
    /// The `Upgrade` header is missing or is not `websocket`.
    UpgradeNotWebsocket,
    /// The `Sec-WebSocket-Version` header is missing or is not `13`.
    VersionNotThirteen,
    /// The `Sec-WebSocket-Key` header is missing.
    KeyMissing,
}

/// The method equals `GET`.
pub open spec fn method_ok(req: HandshakeRequest) -> bool {
    encode_utf8(req.method@) == ("GET").spec_bytes()
}

/// The `Connection` header is present and, split on `", "`, contains a token
/// case-insensitively equal to `upgrade`.
pub open spec fn connection_ok(req: HandshakeRequest) -> bool {
    match req.connection {
        Some(c) => has_upgrade_token(encode_utf8(c@)),
        None => false,
    }
}

/// The `Upgrade` header is present and case-insensitively equals
/// `websocket`.
pub open spec fn upgrade_ok(req: HandshakeRequest) -> bool {
    match req.upgrade {
        Some(u) => eq_ignore_ascii_case(encode_utf8(u@), websocket_token()),
        None => false,
    }
}

/// The `Sec-WebSocket-Version` header is present and exactly equals `13`.
pub open spec fn version_ok(req: HandshakeRequest) -> bool {
    match req.version {
        Some(v) => encode_utf8(v@) == ("13").spec_bytes(),
        None => false,
    }
}

/// The `Sec-WebSocket-Key` header is present.
pub open spec fn key_ok(req: HandshakeRequest) -> bool {
    req.key is Some
}

/// All five handshake preconditions hold.
pub open spec fn valid_handshake(req: HandshakeRequest) -> bool {
    method_ok(req) && connection_ok(req) && upgrade_ok(req) && version_ok(req) && key_ok(req)
}

/// The exact verdict owed for a request: `Ok` when all five preconditions
/// hold, otherwise the error of the first failing one.
pub open spec fn spec_validate(req: HandshakeRequest) -> Result<(), HandshakeError> {
    if !method_ok(req) {
        Err(HandshakeError::MethodNotGet)
    } else if !connection_ok(req) {
        Err(HandshakeError::ConnectionMissingUpgrade)
    } else if !upgrade_ok(req) {
        Err(HandshakeError::UpgradeNotWebsocket)
    } else if !version_ok(req) {
        Err(HandshakeError::VersionNotThirteen)
    } else if !key_ok(req) {
        Err(HandshakeError::KeyMissing)
    } else {
        Ok(())
    }
}

/// Check the five handshake preconditions. Returns `Ok` exactly on valid
/// requests; an invalid one is rejected with the first failing check.
pub fn validate(req: &HandshakeRequest) -> (r: Result<(), HandshakeError>)
    ensures
        r == spec_validate(*req),
        r is Ok <==> valid_handshake(*req),
{
    if !bytes_eq(req.method.as_str().as_bytes(), "GET".as_bytes()) {
        return Err(HandshakeError::MethodNotGet);
    }
    match &req.connection {
        None => {
            return Err(HandshakeError::ConnectionMissingUpgrade);
        },
        Some(c) => {
            if !connection_has_upgrade(c.as_str()) {
                return Err(HandshakeError::ConnectionMissingUpgrade);
            }
        },
    }
    match &req.upgrade {
        None => {
            return Err(HandshakeError::UpgradeNotWebsocket);
        },
        Some(u) => {
            if !bytes_eq_ignore_case(u.as_str().as_bytes(), "websocket".as_bytes()) {
                return Err(HandshakeError::UpgradeNotWebsocket);
            }
        },
    }
    match &req.version {
        None => {
            return Err(HandshakeError::VersionNotThirteen);
        },
        Some(v) => {
            if !bytes_eq(v.as_str().as_bytes(), "13".as_bytes()) {
                return Err(HandshakeError::VersionNotThirteen);
            }
        },
    }
    if req.key.is_none() {
        return Err(HandshakeError::KeyMissing);
    }
    Ok(())
}

/// The reply owed to a validated handshake. It carries the accept value and
/// renders as the literal 101 switching-protocols response.
pub struct Ws {
    accept: Accept,
}

impl View for Ws {
    type V = Seq<char>;

    closed spec fn view(&self) -> Seq<char> {
        self.accept@
    }
}

/// Gate a parsed request: check the five preconditions and, if all pass,
/// compute the accept value for its key. Returns `Ok` exactly on valid
/// requests; no 101 response can be built from a rejected one.
pub fn ws(req: &HandshakeRequest) -> (r: Result<Ws, HandshakeError>)
    ensures
        r is Ok <==> valid_handshake(*req),
        (r matches Ok(w) ==> (req.key matches Some(k) && w@ == accept_key_of(encode_utf8(k@)))),
        (r matches Err(e) ==> spec_validate(*req) == Err::<(), HandshakeError>(e)),
{
    match validate(req) {
        Err(e) => Err(e),
        Ok(()) => match &req.key {
            Some(k) => Ok(Ws { accept: Accept::from_key(k.as_str()) }),
            None => {
                proof {
                    assert(false);
                }
                Err(HandshakeError::KeyMissing)
            },
        },
    }
}

/// The literal switching-protocols response: status 101, the three fixed
/// headers, empty body. The field for each header holds its value.
#[derive(Debug)]
pub struct SwitchingProtocols {
    pub status: u16,
    pub connection: String,
    pub upgrade: String,
    pub sec_websocket_accept: String,
}

impl Ws {
    /// Build the 101 response for this accepted handshake: status 101,
    /// `connection: upgrade`, `upgrade: websocket`, and the accept value
    /// under `sec-websocket-accept`.
    pub fn into_response(self) -> (r: SwitchingProtocols)
        ensures
            r.status == 101,
            r.connection@ == ("upgrade")@,
            r.upgrade@ == ("websocket")@,
            r.sec_websocket_accept@ == self@,
    {
        SwitchingProtocols {
            status: 101,
            connection: "upgrade".to_owned(),
            upgrade: "websocket".to_owned(),
            sec_websocket_accept: self.accept.into_string(),
        }
    }
}

/// A request that misses or violates any one of the five preconditions is
/// never answered with the switching response: validation rejects it.
pub proof fn lemma_invalid_request_rejected(req: HandshakeRequest)
    requires
        !valid_handshake(req),
    ensures
        spec_validate(req) is Err,
{
}

/// A valid request is always accepted, and it necessarily carries a key for
/// the accept value to be derived from.
pub proof fn lemma_valid_request_accepted(req: HandshakeRequest)
    requires
        valid_handshake(req),
    ensures
        spec_validate(req) is Ok,
        req.key is Some,
{
}

} // verus!
