//! Credentials and request signing: HMAC-SHA256 over `"<timestamp>+<path>"`,
//! sent base64-encoded.
use vstd::prelude::*;
use vstd::string::StringExecFns;

use crate::digits::{int_text, int_to_string, is_digit, lemma_nat_digits, nat_digits};
use crate::error::ClientError;
use crate::text::owned;

verus! {

/// The HMAC-SHA256 tag of the UTF-8 bytes of `message` under `key`.
pub uninterp spec fn hmac_sha256_of(key: Seq<u8>, message: Seq<char>) -> Seq<u8>;

/// The standard, padded base64 text of `bytes`.
pub uninterp spec fn base64_of(bytes: Seq<u8>) -> Seq<char>;

/// The bytes that a standard base64 text decodes to, if it is valid.
pub uninterp spec fn base64_decoded(text: Seq<char>) -> Option<Seq<u8>>;

/// Relies on hmac's `Hmac<Sha256>`: `new_from_slice` accepts keys of any
/// length, and the tag depends on key and message alone.
#[verifier::external_body]
fn hmac_sha256(key: &[u8], message: &str) -> (r: Vec<u8>)
    ensures
        r@ == hmac_sha256_of(key@, message@),
{
    let mut mac = <hmac::Hmac<sha2::Sha256> as hmac::Mac>::new_from_slice(key).expect(
        "HMAC takes keys of any length",
    );
    hmac::Mac::update(&mut mac, message.as_bytes());
    hmac::Mac::finalize(mac).into_bytes().to_vec()
}

/// Relies on base64's `encode` (standard alphabet, padded).
#[verifier::external_body]
fn base64_encode(bytes: &[u8]) -> (r: String)
    ensures
        r@ == base64_of(bytes@),
{
    base64::encode(bytes)
}

/// Relies on base64's `decode` (standard alphabet): it fails exactly on text
/// that is not valid base64.
#[verifier::external_body]
fn base64_decode(text: &str) -> (r: Option<Vec<u8>>)
    ensures
        match r {
            Some(b) => base64_decoded(text@) == Some(b@),
            None => base64_decoded(text@) is None,
        },
{
    base64::decode(text).ok()
}

/// The path without its leading `/`.
pub open spec fn strip_slash(path: Seq<char>) -> Seq<char> {
    if path.len() > 0 && path[0] == '/' {
        path.skip(1)
    } else {
        path
    }
}

/// The signed message: `"<timestamp>+<path without leading slash>"`.
pub open spec fn prehash(timestamp: int, path: Seq<char>) -> Seq<char> {
    int_text(timestamp) + seq!['+'] + strip_slash(path)
}

/// The base64 HMAC-SHA256 signature of a request path at a time.
pub open spec fn signature(key: Seq<u8>, timestamp: int, path: Seq<char>) -> Seq<char> {
    base64_of(hmac_sha256_of(key, prehash(timestamp, path)))
}

/// Builds the signed message for a path and a timestamp in milliseconds.
pub fn prehash_text(path: &str, timestamp: i64) -> (r: String)
    ensures
        r@ == prehash(timestamp as int, path@),
{
    let n = path.unicode_len();
    let rest = if n > 0 && path.get_char(0) == '/' {
        path.substring_char(1, n)
    } else {
        path
    };
    assert(rest@ =~= strip_slash(path@));
    let mut s = int_to_string(timestamp);
    s.push('+');
    s.append(rest);
    assert(s@ =~= prehash(timestamp as int, path@));
    s
}

/// The request signature: base64 of HMAC-SHA256 under the private key.
pub fn sign(private_key: &[u8], path: &str, timestamp: i64) -> (r: String)
    ensures
        r@ == signature(private_key@, timestamp as int, path@),
{
    let message = prehash_text(path, timestamp);
    let tag = hmac_sha256(private_key, message.as_str());
    base64_encode(tag.as_slice())
}

/// Pairs of header name and value, as text.
pub open spec fn headers_view(h: Seq<(String, String)>) -> Seq<(Seq<char>, Seq<char>)> {
    h.map_values(|p: (String, String)| (p.0@, p.1@))
}

/// The three headers of an authenticated request.
pub open spec fn auth_headers_spec(auth: Auth, path: Seq<char>, timestamp: int) -> Seq<
    (Seq<char>, Seq<char>),
> {
    seq![
        ("x-auth-key"@, auth.public_key@),
        ("x-auth-timestamp"@, int_text(timestamp)),
        ("x-auth-signature"@, signature(auth.private_key_bytes@, timestamp, path)),
    ]
}

/// API credentials: a public key, the decoded private key, and the account
/// group once known.
#[derive(Clone, Debug)]
pub struct Auth {
    pub public_key: String,
    pub private_key_bytes: Vec<u8>,
    pub account_group: Option<u32>,
}

/// The client's configuration: credentials, if any.
#[derive(Clone, Debug)]
pub struct BitMaxClient {
    pub auth: Option<Auth>,
}

impl BitMaxClient {
    /// A client without credentials, for public endpoints only.
    pub fn new() -> (r: BitMaxClient)
        ensures
            r.auth is None,
    {
        BitMaxClient { auth: None }
    }

    /// A client with credentials; the private key is given in base64.
    pub fn with_auth(public_key: &str, private_key: &str, account_group: Option<u32>) -> (r: Result<
        BitMaxClient,
        ClientError,
    >)
        ensures
            match base64_decoded(private_key@) {
                None => r matches Err(ClientError::InvalidPrivateKey),
                Some(key) => {
                    &&& r is Ok
                    &&& r->Ok_0.auth is Some
                    &&& r->Ok_0.auth->Some_0.public_key@ == public_key@
                    &&& r->Ok_0.auth->Some_0.private_key_bytes@ == key
                    &&& r->Ok_0.auth->Some_0.account_group == account_group
                },
            },
    {
        match base64_decode(private_key) {
            None => Err(ClientError::InvalidPrivateKey),
            Some(bytes) => Ok(
                BitMaxClient {
                    auth: Some(
                        Auth {
                            public_key: owned(public_key),
                            private_key_bytes: bytes,
                            account_group,
                        },
                    ),
                },
            ),
        }
    }

    /// Records the account group; fails when there are no credentials.
    pub fn set_account_group(&mut self, account_group: u32) -> (r: Result<(), ClientError>)
        ensures
            match old(self).auth {
                None => {
                    &&& r matches Err(ClientError::MissingAuth)
                    &&& final(self).auth is None
                },
                Some(a) => {
                    &&& r is Ok
                    &&& final(self).auth is Some
                    &&& final(self).auth->Some_0.account_group == Some(account_group)
                    &&& final(self).auth->Some_0.public_key == a.public_key
                    &&& final(self).auth->Some_0.private_key_bytes == a.private_key_bytes
                },
            },
    {
        match &mut self.auth {
            None => Err(ClientError::MissingAuth),
            Some(a) => {
                a.account_group = Some(account_group);
                Ok(())
            },
        }
    }

    /// Appends the three signing headers for `api_path` at `timestamp`
    /// (milliseconds); fails, leaving `headers` as it was, without
    /// credentials.
    pub fn attach_auth_headers(
        &self,
        headers: &mut Vec<(String, String)>,
        api_path: &str,
        timestamp: i64,
    ) -> (r: Result<(), ClientError>)
        ensures
            match self.auth {
                None => {
                    &&& r matches Err(ClientError::MissingAuth)
                    &&& final(headers)@ == old(headers)@
                },
                Some(a) => {
                    &&& r is Ok
                    &&& headers_view(final(headers)@) == headers_view(old(headers)@)
                        + auth_headers_spec(a, api_path@, timestamp as int)
                },
            },
    {
        match &self.auth {
            None => Err(ClientError::MissingAuth),
            Some(a) => {
                let signature = sign(a.private_key_bytes.as_slice(), api_path, timestamp);
                headers.push((owned("x-auth-key"), a.public_key.clone()));
                headers.push((owned("x-auth-timestamp"), int_to_string(timestamp)));
                headers.push((owned("x-auth-signature"), signature));
                assert(headers_view(headers@) =~= headers_view(old(headers)@) + auth_headers_spec(
                    *a,
                    api_path@,
                    timestamp as int,
                ));
                Ok(())
            },
        }
    }
}

proof fn lemma_int_text_chars(t: int)
    ensures
        int_text(t).len() > 0,
        forall|i: int| 0 <= i < int_text(t).len() ==> #[trigger] int_text(t)[i] != '+',
        int_text(t)[0] == '-' <==> t < 0,
{
    if t < 0 {
        lemma_nat_digits((-t) as nat);
        let d = nat_digits((-t) as nat);
        assert forall|i: int| 0 <= i < int_text(t).len() implies #[trigger] int_text(t)[i] != '+' by {
            if i > 0 {
                assert(int_text(t)[i] == d[i - 1]);
                assert(is_digit(d[i - 1]));
            }
        }
    } else {
        lemma_nat_digits(t as nat);
        let d = nat_digits(t as nat);
        assert(is_digit(d[0]));
        assert forall|i: int| 0 <= i < int_text(t).len() implies #[trigger] int_text(t)[i] != '+' by {
            assert(is_digit(d[i]));
        }
    }
}

proof fn lemma_int_text_injective(a: int, b: int)
    requires
        int_text(a) == int_text(b),
    ensures
        a == b,
{
    lemma_int_text_chars(a);
    lemma_int_text_chars(b);
    if a < 0 {
        assert(int_text(a).skip(1) =~= nat_digits((-a) as nat));
        assert(int_text(b).skip(1) =~= nat_digits((-b) as nat));
        lemma_nat_digits((-a) as nat);
        lemma_nat_digits((-b) as nat);
    } else {
        lemma_nat_digits(a as nat);
        lemma_nat_digits(b as nat);
    }
}

/// The signed message determines the timestamp and the path: two requests
/// that differ in either are signed over different messages.
pub proof fn lemma_prehash_injective(time_a: int, path_a: Seq<char>, time_b: int, path_b: Seq<char>)
    requires
        prehash(time_a, path_a) == prehash(time_b, path_b),
    ensures
        time_a == time_b,
        strip_slash(path_a) == strip_slash(path_b),
{
    let a = int_text(time_a);
    let b = int_text(time_b);
    let m = prehash(time_a, path_a);
    lemma_int_text_chars(time_a);
    lemma_int_text_chars(time_b);
    assert(m[a.len() as int] == '+');
    assert(prehash(time_b, path_b)[b.len() as int] == '+');
    if a.len() < b.len() {
        assert(m[a.len() as int] == b[a.len() as int]);
    }
    if b.len() < a.len() {
        assert(m[b.len() as int] == a[b.len() as int]);
    }
    assert(a.len() == b.len());
    assert(a =~= m.take(a.len() as int));
    assert(b =~= m.take(b.len() as int));
    lemma_int_text_injective(time_a, time_b);
    assert(strip_slash(path_a) =~= m.skip(a.len() as int + 1));
    assert(strip_slash(path_b) =~= m.skip(b.len() as int + 1));
}

} // verus!
