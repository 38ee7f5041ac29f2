//! How requests are authenticated.

use super::APIError;
use crate::client::contract::{self, ClobAuth, TypedData};
use crate::clock;
use crate::encoding;
use crate::primitives::{self, Address, U256};
use crate::text;
use vstd::prelude::*;
use vstd::string::StringExecFns;

verus! {

/// The headers of a request: names and values, each name at most once.
#[derive(Debug, Clone)]
pub struct Headers {
    pub entries: Vec<(String, String)>,
}

impl View for Headers {
    type V = Seq<(Seq<char>, Seq<char>)>;

    open spec fn view(&self) -> Seq<(Seq<char>, Seq<char>)> {
        text::pairs(self.entries@)
    }
}

/// Whether each name occurs at most once.
pub open spec fn distinct_names(h: Seq<(Seq<char>, Seq<char>)>) -> bool {
    forall|i: int, j: int| 0 <= i < j < h.len() ==> (#[trigger] h[i]).0 != (#[trigger] h[j]).0
}

/// The value under a name: that of its first occurrence.
pub open spec fn value_of(h: Seq<(Seq<char>, Seq<char>)>, name: Seq<char>) -> Option<Seq<char>>
    decreases h.len(),
{
    if h.len() == 0 {
        None
    } else if h[0].0 == name {
        Some(h[0].1)
    } else {
        value_of(h.skip(1), name)
    }
}

/// The headers with a value set under a name: in place of the value that
/// stands there, or at the end.
pub open spec fn with_value(
    h: Seq<(Seq<char>, Seq<char>)>,
    name: Seq<char>,
    value: Seq<char>,
) -> Seq<(Seq<char>, Seq<char>)>
    decreases h.len(),
{
    if h.len() == 0 {
        seq![(name, value)]
    } else if h[0].0 == name {
        seq![(name, value)] + h.skip(1)
    } else {
        seq![h[0]] + with_value(h.skip(1), name, value)
    }
}

/// Setting a value where `i` is the first place of the name changes that
/// place alone, and where there is none adds a place at the end.
pub(crate) proof fn with_value_at(h: Seq<(Seq<char>, Seq<char>)>, name: Seq<char>, value: Seq<char>, i: int)
    requires
        0 <= i <= h.len(),
        i < h.len() ==> h[i].0 == name,
        forall|j: int| 0 <= j < i ==> (#[trigger] h[j]).0 != name,
    ensures
        with_value(h, name, value) == (if i < h.len() {
            h.update(i, (name, value))
        } else {
            h.push((name, value))
        }),
    decreases h.len(),
{
    if h.len() == 0 {
        assert(h.push((name, value)) =~= seq![(name, value)]);
    } else if i == 0 {
        assert(h.update(0, (name, value)) =~= seq![(name, value)] + h.skip(1));
    } else {
        assert forall|j: int| 0 <= j < i - 1 implies (#[trigger] h.skip(1)[j]).0 != name by {
            assert(h[j + 1].0 != name);
        }
        assert(h[0].0 != name);
        with_value_at(h.skip(1), name, value, i - 1);
        if i < h.len() {
            assert(seq![h[0]] + h.skip(1).update(i - 1, (name, value)) =~= h.update(
                i,
                (name, value),
            ));
        } else {
            assert(seq![h[0]] + h.skip(1).push((name, value)) =~= h.push((name, value)));
        }
    }
}

/// After a value is set under a name it stands there, and the values under
/// all other names are what they were.
pub proof fn set_value_is_found(
    h: Seq<(Seq<char>, Seq<char>)>,
    name: Seq<char>,
    value: Seq<char>,
    other: Seq<char>,
)
    ensures
        value_of(with_value(h, name, value), name) == Some(value),
        other != name ==> value_of(with_value(h, name, value), other) == value_of(h, other),
    decreases h.len(),
{
    reveal_with_fuel(value_of, 2);
    let w = with_value(h, name, value);
    if h.len() == 0 {
        assert(w.skip(1) =~= seq![]);
    } else if h[0].0 == name {
        assert(w.skip(1) =~= h.skip(1));
    } else {
        set_value_is_found(h.skip(1), name, value, other);
        assert(w.skip(1) =~= with_value(h.skip(1), name, value));
    }
}

impl Headers {
    /// Each name occurs at most once.
    pub open spec fn wf(&self) -> bool {
        distinct_names(self@)
    }

    /// No headers.
    pub fn new() -> (h: Headers)
        ensures
            h.wf(),
            h@ == Seq::<(Seq<char>, Seq<char>)>::empty(),
    {
        let h = Headers { entries: Vec::new() };
        assert(h@ =~= Seq::<(Seq<char>, Seq<char>)>::empty());
        h
    }

    /// Sets the value under a name.
    pub fn insert(&mut self, name: &str, value: String)
        requires
            old(self).wf(),
        ensures
            final(self).wf(),
            final(self)@ == with_value(old(self)@, name@, value@),
    {
        let ghost before = self@;
        let mut i: usize = 0;
        while i < self.entries.len()
            invariant
                i <= self.entries@.len(),
                self@ == before,
                before == old(self)@,
                distinct_names(before),
                forall|j: int| 0 <= j < i ==> (#[trigger] before[j]).0 != name@,
            decreases self.entries@.len() - i,
        {
            if text::same_text(&self.entries[i].0, name) {
                assert(before[i as int].0 == name@);
                self.entries.set(i, (name.to_owned(), value));
                proof {
                    with_value_at(before, name@, value@, i as int);
                    assert(self@ =~= before.update(i as int, (name@, value@)));
                }
                return;
            }
            assert(before[i as int].0 != name@);
            i += 1;
        }
        self.entries.push((name.to_owned(), value));
        proof {
            with_value_at(before, name@, value@, before.len() as int);
            assert(self@ =~= before.push((name@, value@)));
        }
    }
}

/// The credentials with which requests are authenticated.
#[derive(Debug)]
pub struct ApiCreds {
    pub api_key: String,
    pub secret: String,
    pub passphrase: String,
}

impl Clone for ApiCreds {
    fn clone(&self) -> (creds: Self)
        ensures
            creds == *self,
    {
        ApiCreds {
            api_key: self.api_key.clone(),
            secret: self.secret.clone(),
            passphrase: self.passphrase.clone(),
        }
    }
}

/// The key that a secret holds in base64 notation.
pub open spec fn secret_key(secret: Seq<char>) -> Option<Seq<u8>> {
    if exists|key: Seq<u8>| #[trigger] encoding::base64_url(key) == secret {
        Some(choose|key: Seq<u8>| #[trigger] encoding::base64_url(key) == secret)
    } else {
        None
    }
}

/// A secret holds the key whose notation it is.
pub proof fn secret_of_key(key: Seq<u8>)
    ensures
        secret_key(encoding::base64_url(key)) == Some(key),
{
    let found = choose|k: Seq<u8>| #[trigger]
        encoding::base64_url(k) == encoding::base64_url(key);
    encoding::base64_url_injective(found, key);
}

/// The text that is signed for a request: the time, the method, the path and
/// the body, if there is one, one behind the other.
pub open spec fn signed_text(
    timestamp: u64,
    method: Seq<char>,
    req_path: Seq<char>,
    body: Option<Seq<char>>,
) -> Seq<char> {
    text::decimal(timestamp as nat) + method + req_path + (match body {
        Some(body) => body,
        None => seq![],
    })
}

/// The signature of a request under a key.
pub open spec fn hmac_signature(
    key: Seq<u8>,
    timestamp: u64,
    method: Seq<char>,
    req_path: Seq<char>,
    body: Option<Seq<char>>,
) -> Seq<char> {
    encoding::base64_url(
        encoding::hmac_sha256(
            key,
            vstd::utf8::encode_utf8(signed_text(timestamp, method, req_path, body)),
        ),
    )
}

/// The text of a body, if there is one.
pub open spec fn body_text(body: Option<&str>) -> Option<Seq<char>> {
    match body {
        Some(body) => Some(body@),
        None => None,
    }
}

/// A request without a body is signed like one with an empty body.
pub proof fn no_body_is_empty_body(
    key: Seq<u8>,
    timestamp: u64,
    method: Seq<char>,
    req_path: Seq<char>,
)
    ensures
        hmac_signature(key, timestamp, method, req_path, None) == hmac_signature(
            key,
            timestamp,
            method,
            req_path,
            Some(seq![]),
        ),
{
}

/// The text that is signed for a request.
pub fn signed_message(timestamp: u64, method: &str, req_path: &str, body: Option<&str>) -> (message:
    String)
    ensures
        message@ == signed_text(timestamp, method@, req_path@, body_text(body)),
{
    let mut message = text::decimal_text(timestamp);
    message.append(method);
    message.append(req_path);
    if let Some(body) = body {
        message.append(body);
    }
    assert(message@ =~= signed_text(timestamp, method@, req_path@, body_text(body)));
    message
}

/// An authentication code as the text of a signature.
pub fn signature_of_code(code: &[u8; 32]) -> (signature: String)
    ensures
        signature@ == encoding::base64_url(code@),
        signature@.len() == 44,
{
    proof {
        encoding::base64_url_length(code@);
    }
    encoding::base64_encode(code)
}

/// The signature of a request under the key that a secret holds. A secret
/// that holds no key is an error.
pub fn build_hmac_signature(
    secret: &str,
    timestamp: u64,
    method: &str,
    req_path: &str,
    body: Option<&str>,
) -> (signature: Result<String, APIError>)
    ensures
        match signature {
            Ok(s) => secret_key(secret@) is Some && s@ == hmac_signature(
                secret_key(secret@)->0,
                timestamp,
                method@,
                req_path@,
                body_text(body),
            ) && s@.len() == 44,
            Err(e) => secret_key(secret@) is None && e == APIError::Base64DecodeError(
                encoding::base64_failure(secret@),
            ),
        },
{
    let decoded = match encoding::base64_decode(secret) {
        Ok(decoded) => decoded,
        Err(e) => return Err(APIError::Base64DecodeError(e)),
    };
    proof {
        secret_of_key(decoded@);
    }
    let message = signed_message(timestamp, method, req_path, body);
    let code = encoding::hmac(&decoded, message.as_str().as_bytes());
    Ok(signature_of_code(&code))
}

/// The headers of a request that a wallet has signed.
pub open spec fn l1_entries(
    address: Seq<char>,
    timestamp: u64,
    nonce: nat,
    signature: Seq<u8>,
) -> Seq<(Seq<char>, Seq<char>)> {
    seq![
        ("poly_address"@, address),
        ("poly_signature"@, seq!['0', 'x'] + text::hex(signature)),
        ("poly_timestamp"@, text::decimal(timestamp as nat)),
        ("poly_nonce"@, text::decimal(nonce)),
    ]
}

/// The headers of a request that is signed with a key.
pub open spec fn l2_entries(
    address: Seq<u8>,
    creds: ApiCreds,
    key: Seq<u8>,
    timestamp: u64,
    method: Seq<char>,
    req_path: Seq<char>,
    body: Option<Seq<char>>,
) -> Seq<(Seq<char>, Seq<char>)> {
    seq![
        ("poly_address"@, seq!['0', 'x'] + text::hex(address)),
        ("poly_signature"@, hmac_signature(key, timestamp, method, req_path, body)),
        ("poly_timestamp"@, text::decimal(timestamp as nat)),
        ("poly_api_key"@, creds.api_key@),
        ("poly_passphrase"@, creds.passphrase@),
    ]
}

/// The names of the headers differ from one another and from those that lists
/// of orders and trades add to them.
pub(crate) proof fn header_names_differ()
    ensures
        "poly_address"@ != "poly_signature"@,
        "poly_address"@ != "poly_timestamp"@,
        "poly_address"@ != "poly_nonce"@,
        "poly_address"@ != "poly_api_key"@,
        "poly_address"@ != "poly_passphrase"@,
        "poly_signature"@ != "poly_timestamp"@,
        "poly_signature"@ != "poly_nonce"@,
        "poly_signature"@ != "poly_api_key"@,
        "poly_signature"@ != "poly_passphrase"@,
        "poly_timestamp"@ != "poly_nonce"@,
        "poly_timestamp"@ != "poly_api_key"@,
        "poly_timestamp"@ != "poly_passphrase"@,
        "poly_nonce"@ != "poly_api_key"@,
        "poly_nonce"@ != "poly_passphrase"@,
        "poly_api_key"@ != "poly_passphrase"@,
        "poly_address"@[0] == 'p',
        "poly_signature"@[0] == 'p',
        "poly_timestamp"@[0] == 'p',
        "poly_api_key"@[0] == 'p',
        "poly_passphrase"@[0] == 'p',
        "asset_id"@[0] == 'a',
        "condition_id"@[0] == 'c',
{
    reveal_strlit("poly_address");
    reveal_strlit("poly_signature");
    reveal_strlit("poly_timestamp");
    reveal_strlit("poly_nonce");
    reveal_strlit("poly_api_key");
    reveal_strlit("poly_passphrase");
    reveal_strlit("asset_id");
    reveal_strlit("condition_id");
    assert("poly_address"@[5] == 'a' && "poly_address"@[6] == 'd');
    assert("poly_signature"@[5] == 's');
    assert("poly_timestamp"@[5] == 't');
    assert("poly_nonce"@[5] == 'n');
    assert("poly_api_key"@[5] == 'a' && "poly_api_key"@[6] == 'p');
    assert("poly_passphrase"@[5] == 'p');
}

/// The nonce that is meant: zero, where none is given.
pub open spec fn nonce_value(nonce: Option<U256>) -> nat {
    match nonce {
        Some(nonce) => nonce@,
        None => 0,
    }
}

/// Whether this is what a wallet signs to be given credentials.
pub open spec fn is_l1_message(
    data: TypedData<ClobAuth>,
    address: Address,
    timestamp: u64,
    nonce: Option<U256>,
) -> bool {
    &&& data.message.address == address
    &&& data.message.timestamp@ == text::decimal(timestamp as nat)
    &&& data.message.nonce@ == nonce_value(nonce)
    &&& data.message.message@ == "This message attests that I control the given wallet"@
    &&& data.domain.name@ == "ClobAuthDomain"@
    &&& data.domain.version@ == "1"@
    &&& data.domain.chain_id == contract::POLYGON
    &&& data.domain.verifying_contract is None
}

/// What a wallet signs to be given credentials.
pub fn l1_message(address: Address, timestamp: u64, nonce: Option<U256>) -> (data: TypedData<
    ClobAuth,
>)
    ensures
        is_l1_message(data, address, timestamp, nonce),
{
    let nonce = match nonce {
        Some(nonce) => nonce,
        None => U256::zero(),
    };
    contract::clob_auth_message(address, text::decimal_text(timestamp), nonce)
}

/// The headers of a request by which the wallet with the address that
/// `address` names is given credentials.
pub fn l1_headers(
    address: String,
    timestamp: u64,
    nonce: Option<U256>,
    signature: &[u8; 65],
) -> (headers: Headers)
    ensures
        headers.wf(),
        headers@ == l1_entries(address@, timestamp, nonce_value(nonce), signature@),
{
    let nonce = match nonce {
        Some(nonce) => nonce,
        None => U256::zero(),
    };
    let mut entries: Vec<(String, String)> = Vec::new();
    text::push_pair(&mut entries, "poly_address", address);
    let signature = text::join2("0x", &primitives::hex_digits(signature));
    text::push_pair(&mut entries, "poly_signature", signature);
    text::push_pair(&mut entries, "poly_timestamp", text::decimal_text(timestamp));
    text::push_pair(&mut entries, "poly_nonce", nonce.to_decimal());
    let headers = Headers { entries };
    proof {
        reveal_strlit("0x");
        assert("0x"@ =~= seq!['0', 'x']);
        header_names_differ();
    }
    headers
}

/// The headers of a request by which a wallet is given credentials.
/// `signature` is the wallet's, of what [`l1_message`] gives for the same
/// address, time and nonce.
pub fn create_l1_headers(
    address: Address,
    timestamp: u64,
    nonce: Option<U256>,
    signature: &[u8; 65],
) -> (headers: Headers)
    ensures
        headers.wf(),
        headers@ == l1_entries(
            primitives::checksummed(address@),
            timestamp,
            nonce_value(nonce),
            signature@,
        ),
{
    l1_headers(address.to_checksum(), timestamp, nonce, signature)
}

/// Whether these are the headers of a request at the time `timestamp`, signed
/// with the credentials' secret, or the error that the secret holds no key.
pub open spec fn is_l2(
    headers: Result<Headers, APIError>,
    address: Address,
    creds: ApiCreds,
    timestamp: u64,
    method: Seq<char>,
    req_path: Seq<char>,
    body: Option<Seq<char>>,
) -> bool {
    match secret_key(creds.secret@) {
        Some(key) => {
            &&& headers is Ok
            &&& headers->Ok_0.wf()
            &&& headers->Ok_0@ == l2_entries(
                address@,
                creds,
                key,
                timestamp,
                method,
                req_path,
                body,
            )
        },
        None => headers == Err::<Headers, APIError>(
            APIError::Base64DecodeError(encoding::base64_failure(creds.secret@)),
        ),
    }
}

/// The headers of a request at the time `timestamp`, signed with the
/// credentials' secret. A secret that holds no key is an error.
pub fn l2_headers(
    address: Address,
    creds: &ApiCreds,
    timestamp: u64,
    method: &str,
    req_path: &str,
    body: Option<&str>,
) -> (headers: Result<Headers, APIError>)
    ensures
        is_l2(headers, address, *creds, timestamp, method@, req_path@, body_text(body)),
{
    let signature = match build_hmac_signature(&creds.secret, timestamp, method, req_path, body) {
        Ok(signature) => signature,
        Err(e) => return Err(e),
    };
    let mut entries: Vec<(String, String)> = Vec::new();
    text::push_pair(&mut entries, "poly_address", address.to_hex());
    text::push_pair(&mut entries, "poly_signature", signature);
    text::push_pair(&mut entries, "poly_timestamp", text::decimal_text(timestamp));
    text::push_pair(&mut entries, "poly_api_key", creds.api_key.clone());
    text::push_pair(&mut entries, "poly_passphrase", creds.passphrase.clone());
    let headers = Headers { entries };
    proof {
        header_names_differ();
        assert(headers@ =~= l2_entries(
            address@,
            *creds,
            secret_key(creds.secret@)->0,
            timestamp,
            method@,
            req_path@,
            body_text(body),
        ));
    }
    Ok(headers)
}

/// The headers of a request that is made now; `None` where the clock stands
/// before 1970.
pub fn create_l2_headers(
    address: Address,
    creds: &ApiCreds,
    method: &str,
    req_path: &str,
    body: Option<&str>,
) -> (headers: Option<Result<Headers, APIError>>)
    ensures
        exists|now: Option<u64>| #[trigger]
            clock::is_clock_reading(now) && (match now {
                Some(timestamp) => headers is Some && is_l2(
                    headers->0,
                    address,
                    *creds,
                    timestamp,
                    method@,
                    req_path@,
                    body_text(body),
                ),
                None => headers is None,
            }),
{
    match clock::get_current_unix_time_secs() {
        Some(timestamp) => Some(l2_headers(address, creds, timestamp, method, req_path, body)),
        None => None,
    }
}

/// The headers by which a wallet is given credentials name the time and the
/// nonce that the wallet has signed.
pub proof fn l1_headers_say_what_was_signed(
    data: TypedData<ClobAuth>,
    address: Address,
    timestamp: u64,
    nonce: Option<U256>,
    signature: Seq<u8>,
)
    requires
        is_l1_message(data, address, timestamp, nonce),
    ensures
        ({
            let address = primitives::checksummed(address@);
            let entries = l1_entries(address, timestamp, nonce_value(nonce), signature);
            &&& value_of(entries, "poly_timestamp"@) == Some(data.message.timestamp@)
            &&& value_of(entries, "poly_nonce"@) == Some(text::decimal(data.message.nonce@))
            &&& value_of(entries, "poly_address"@) == Some(
                primitives::checksummed(data.message.address@),
            )
        }),
{
    let address = primitives::checksummed(address@);
    let entries = l1_entries(address, timestamp, nonce_value(nonce), signature);
    header_names_differ();
    reveal_with_fuel(value_of, 5);
    assert(entries.skip(1)[0] == entries[1]);
    assert(entries.skip(1).skip(1)[0] == entries[2]);
    assert(entries.skip(1).skip(1).skip(1)[0] == entries[3]);
}

/// The time that the headers of a signed request name is the one that the
/// signature covers: the signed text starts with it.
pub proof fn signature_covers_time(
    address: Seq<u8>,
    creds: ApiCreds,
    key: Seq<u8>,
    timestamp: u64,
    method: Seq<char>,
    req_path: Seq<char>,
    body: Option<Seq<char>>,
)
    ensures
        ({
            let entries = l2_entries(address, creds, key, timestamp, method, req_path, body);
            let signed = signed_text(timestamp, method, req_path, body);
            let named = value_of(entries, "poly_timestamp"@);
            &&& named is Some
            &&& named->0.is_prefix_of(signed)
            &&& value_of(entries, "poly_signature"@) == Some(
                encoding::base64_url(
                    encoding::hmac_sha256(key, vstd::utf8::encode_utf8(signed)),
                ),
            )
        }),
{
    let entries = l2_entries(address, creds, key, timestamp, method, req_path, body);
    header_names_differ();
    reveal_with_fuel(value_of, 4);
    assert(entries.skip(1)[0] == entries[1]);
    assert(entries.skip(1).skip(1)[0] == entries[2]);
    let time = text::decimal(timestamp as nat);
    assert(signed_text(timestamp, method, req_path, body).take(time.len() as int) =~= time);
}

/// The headers of a request that is made at `timestamp` with the credentials:
/// they name the wallet, the time, the key and the passphrase, and carry the
/// HMAC-SHA256 of `signed` under `key`, in base64 notation.
pub open spec fn headers_with_code(
    address: Address,
    creds: ApiCreds,
    key: Seq<u8>,
    timestamp: u64,
    signed: Seq<char>,
) -> Seq<(Seq<char>, Seq<char>)> {
    let code = encoding::hmac_sha256(key, vstd::utf8::encode_utf8(signed));
    seq![
        ("poly_address"@, seq!['0', 'x'] + text::hex(address@)),
        ("poly_signature"@, encoding::base64_url(code)),
        ("poly_timestamp"@, text::decimal(timestamp as nat)),
        ("poly_api_key"@, creds.api_key@),
        ("poly_passphrase"@, creds.passphrase@),
    ]
}

/// Whether the headers are those of a request that is made at `timestamp` with
/// the credentials, and carry the code of `signed` under the key that the
/// secret holds.
pub open spec fn authenticates(
    headers: Seq<(Seq<char>, Seq<char>)>,
    address: Address,
    creds: ApiCreds,
    timestamp: u64,
    signed: Seq<char>,
) -> bool {
    exists|key: Seq<u8>| #[trigger]
        encoding::base64_url(key) == creds.secret@ && headers == headers_with_code(
            address,
            creds,
            key,
            timestamp,
            signed,
        )
}

/// The headers of a request carry the code of the time, the method, the path
/// and the body.
pub(crate) proof fn entries_authenticate(
    address: Address,
    creds: ApiCreds,
    key: Seq<u8>,
    timestamp: u64,
    method: Seq<char>,
    req_path: Seq<char>,
    body: Option<Seq<char>>,
)
    requires
        secret_key(creds.secret@) == Some(key),
    ensures
        ({
            let entries = l2_entries(
                address@,
                creds,
                key,
                timestamp,
                method,
                req_path,
                body,
            );
            let start = text::decimal(timestamp as nat) + method + req_path;
            &&& body matches Some(body) ==> authenticates(
                entries,
                address,
                creds,
                timestamp,
                start + body,
            )
            &&& body is None ==> authenticates(entries, address, creds, timestamp, start)
        }),
{
    let start = text::decimal(timestamp as nat) + method + req_path;
    let entries = l2_entries(address@, creds, key, timestamp, method, req_path, body);
    assert(encoding::base64_url(key) == creds.secret@);
    let signed = signed_text(timestamp, method, req_path, body);
    if body is None {
        assert(signed =~= start);
    }
    assert(entries == headers_with_code(address, creds, key, timestamp, signed));
}

/// Whether the secret holds a key at all.
pub open spec fn has_key(creds: ApiCreds) -> bool {
    exists|key: Seq<u8>| #[trigger] encoding::base64_url(key) == creds.secret@
}

/// A request is authenticated by the signature of the time, the method, the
/// path and the body, one behind the other, and is refused only where the
/// secret holds no key.
pub proof fn headers_authenticate(
    address: Address,
    creds: ApiCreds,
    timestamp: u64,
    method: &str,
    req_path: &str,
    body: Option<&str>,
    headers: Result<Headers, APIError>,
)
    requires
        call_ensures(
            l2_headers,
            (address, &creds, timestamp, method, req_path, body),
            headers,
        ),
    ensures
        headers is Ok <==> has_key(creds),
        headers matches Err(e) ==> e == APIError::Base64DecodeError(
            encoding::base64_failure(creds.secret@),
        ),
        headers matches Ok(h) ==> {
            &&& body matches Some(body) ==> authenticates(
                h@,
                address,
                creds,
                timestamp,
                text::decimal(timestamp as nat) + method@ + req_path@ + body@,
            )
            &&& body is None ==> authenticates(
                h@,
                address,
                creds,
                timestamp,
                text::decimal(timestamp as nat) + method@ + req_path@,
            )
        },
{
    if let Some(key) = secret_key(creds.secret@) {
        entries_authenticate(
            address,
            creds,
            key,
            timestamp,
            method@,
            req_path@,
            body_text(body),
        );
    }
}

/// The signature of a request is that of the time, the method, the path and the
/// body under whichever key has the secret as its notation.
pub proof fn signature_is_of_the_request(
    key: Seq<u8>,
    secret: &str,
    timestamp: u64,
    method: &str,
    req_path: &str,
    body: &str,
    signature: Result<String, APIError>,
    message: String,
)
    requires
        encoding::base64_url(key) == secret@,
        call_ensures(
            build_hmac_signature,
            (secret, timestamp, method, req_path, Some(body)),
            signature,
        ),
        call_ensures(signed_message, (timestamp, method, req_path, Some(body)), message),
    ensures
        message@ == text::decimal(timestamp as nat) + method@ + req_path@ + body@,
        signature matches Ok(s) && s@ == encoding::base64_url(
            encoding::hmac_sha256(key, vstd::utf8::encode_utf8(message@)),
        ),
{
    secret_of_key(key);
}

/// What a wallet signs to be given credentials: its own address, the time and
/// the nonce, which is zero where none is given.
pub proof fn wallet_signs_its_address(
    address: Address,
    timestamp: u64,
    nonce: Option<U256>,
    data: TypedData<ClobAuth>,
)
    requires
        call_ensures(l1_message, (address, timestamp, nonce), data),
    ensures
        data.message.address@ == address@,
        data.message.timestamp@ == text::decimal(timestamp as nat),
        nonce matches Some(n) ==> data.message.nonce@ == n@,
        nonce is None ==> data.message.nonce@ == 0,
        data.message.message@ == "This message attests that I control the given wallet"@,
        data.domain.name@ == "ClobAuthDomain"@,
        data.domain.version@ == "1"@,
        data.domain.chain_id == 137,
        data.domain.verifying_contract is None,
{
}

/// The headers by which a wallet is given credentials: its address, its
/// signature, and the time and the nonce of what it has signed.
pub proof fn wallet_headers_say_what_was_signed(
    address: Address,
    timestamp: u64,
    nonce: Option<U256>,
    signature: [u8; 65],
    data: TypedData<ClobAuth>,
    headers: Headers,
)
    requires
        call_ensures(l1_message, (address, timestamp, nonce), data),
        call_ensures(create_l1_headers, (address, timestamp, nonce, &signature), headers),
    ensures
        headers@ == seq![
            ("poly_address"@, primitives::checksummed(data.message.address@)),
            ("poly_signature"@, seq!['0', 'x'] + text::hex(signature@)),
            ("poly_timestamp"@, data.message.timestamp@),
            ("poly_nonce"@, text::decimal(data.message.nonce@)),
        ],
        data.message.address@ == address@,
        data.message.timestamp@ == text::decimal(timestamp as nat),
        data.message.nonce@ == (match nonce {
            Some(n) => n@,
            None => 0,
        }),
{
}

} // verus!
