//! Gateway credentials and the basic-auth value derived from them.
//!
//! A key/secret pair is joined as `key:secret`, base64-encoded and prefixed
//! with `"Basic "`; the token endpoint exchanges that value for a bearer
//! token, which `parse_auth_token` turns into an `Authorization` header.

use base64::Engine;
use vstd::prelude::*;

use crate::text::{is_blank, str_has_prefix, str_is_blank};

verus! {

/// The standard (padded) base64 rendering of the UTF-8 bytes of `s`.
pub uninterp spec fn base64_of(s: Seq<char>) -> Seq<char>;

/// The transport-ready basic-auth value for a key/secret pair.
pub open spec fn basic_auth_of(key: Seq<char>, secret: Seq<char>) -> Seq<char> {
    "Basic "@ + base64_of(key + ":"@ + secret)
}

/// Relies on base64's `Engine::encode` with the `STANDARD` engine: the
/// rendering depends on the input bytes alone. The length bound keeps the
/// encoded size computation inside `usize`.
#[verifier::external_body]
fn base64_encode(s: &str) -> (r: String)
    requires
        s@.len() <= 0x1000_0000,
    ensures
        r@ == base64_of(s@),
{
    base64::engine::general_purpose::STANDARD.encode(s)
}

/// Relies on base64's `Engine::decode` with the `STANDARD` engine: decoding
/// the standard rendering of any byte string gives those bytes back.
#[verifier::external_body]
fn base64_decode(s: &str) -> (r: Option<String>)
    ensures
        (exists|p: Seq<char>| s@ == base64_of(p)) ==> r is Some,
        r matches Some(d) ==> forall|p: Seq<char>| s@ == base64_of(p) ==> d@ == p,
{
    match base64::engine::general_purpose::STANDARD.decode(s) {
        Ok(bytes) => String::from_utf8(bytes).ok(),
        Err(_) => None,
    }
}

/// Derives the basic-auth value `"Basic " + base64(key + ":" + secret)`.
pub fn encode_basic_auth(key: &str, secret: &str) -> (r: String)
    requires
        key@.len() <= 0x0100_0000,
        secret@.len() <= 0x0100_0000,
    ensures
        r@ == basic_auth_of(key@, secret@),
{
    proof {
        reveal_strlit(":");
    }
    let joined = key.to_owned().concat(":").concat(secret);
    let encoded = base64_encode(joined.as_str());
    String::from_str("Basic ").concat(encoded.as_str())
}

/// Recovers `key + ":" + secret` from a basic-auth value: whenever the input
/// is `basic_auth_of(key, secret)`, the joined pair comes back exactly.
pub fn decode_basic_auth(value: &str) -> (r: Option<String>)
    ensures
        forall|k: Seq<char>, s: Seq<char>|
            value@ == basic_auth_of(k, s) ==> (r matches Some(d) && d@ == k + ":"@ + s),
{
    proof {
        reveal_strlit("Basic ");
    }
    if !str_has_prefix(value, "Basic ") {
        proof {
            assert forall|k: Seq<char>, s: Seq<char>|
                value@ == basic_auth_of(k, s) implies false by {
                assert(value@.subrange(0, 6) =~= "Basic "@);
            }
        }
        return None;
    }
    let n = value.unicode_len();
    let rest = value.substring_char(6, n);
    let r = base64_decode(rest);
    proof {
        assert forall|k: Seq<char>, s: Seq<char>|
            value@ == basic_auth_of(k, s) implies (r matches Some(d) && d@ == k + ":"@
            + s) by {
            assert(rest@ =~= base64_of(k + ":"@ + s));
        }
    }
    r
}

/// Long-lived gateway credentials; every field is validated at construction.
#[derive(Debug)]
pub struct MpesaGateway {
    consumer_key: String,
    consumer_secret: String,
    auth_token_url: String,
}

impl MpesaGateway {
    /// No field is blank, and key and secret are small enough to encode.
    #[verifier::type_invariant]
    pub closed spec fn wf(&self) -> bool {
        &&& !is_blank(self.consumer_key@)
        &&& !is_blank(self.consumer_secret@)
        &&& !is_blank(self.auth_token_url@)
        &&& self.consumer_key@.len() <= 0x0100_0000
        &&& self.consumer_secret@.len() <= 0x0100_0000
    }

    pub closed spec fn spec_key(&self) -> Seq<char> {
        self.consumer_key@
    }

    pub closed spec fn spec_secret(&self) -> Seq<char> {
        self.consumer_secret@
    }

    pub closed spec fn spec_token_url(&self) -> Seq<char> {
        self.auth_token_url@
    }

    /// Validates the three fields, failing fast on the first blank one.
    pub fn new(consumer_key: String, consumer_secret: String, auth_token_url: String) -> (r:
        Result<Self, String>)
        requires
            consumer_key@.len() <= 0x0100_0000,
            consumer_secret@.len() <= 0x0100_0000,
        ensures
            r is Ok <==> (!is_blank(consumer_key@) && !is_blank(consumer_secret@) && !is_blank(
                auth_token_url@,
            )),
            r matches Ok(g) ==> g.spec_key() == consumer_key@ && g.spec_secret()
                == consumer_secret@ && g.spec_token_url() == auth_token_url@,
            is_blank(consumer_key@) ==> (r matches Err(m) && m@ == "consumer key is empty"@),
            !is_blank(consumer_key@) && is_blank(consumer_secret@) ==> (r matches Err(m) && m@
                == "consumer secret is empty"@),
            !is_blank(consumer_key@) && !is_blank(consumer_secret@) && is_blank(auth_token_url@)
                ==> (r matches Err(m) && m@ == "auth_token url is empty"@),
    {
        if str_is_blank(consumer_key.as_str()) {
            return Err(String::from_str("consumer key is empty"));
        }
        if str_is_blank(consumer_secret.as_str()) {
            return Err(String::from_str("consumer secret is empty"));
        }
        if str_is_blank(auth_token_url.as_str()) {
            return Err(String::from_str("auth_token url is empty"));
        }
        Ok(MpesaGateway { consumer_key, consumer_secret, auth_token_url })
    }

    /// The basic-auth value for this credential pair.
    pub fn get_api_key(&self) -> (r: String)
        ensures
            r@ == basic_auth_of(self.spec_key(), self.spec_secret()),
    {
        proof {
            use_type_invariant(self);
        }
        encode_basic_auth(self.consumer_key.as_str(), self.consumer_secret.as_str())
    }

    /// The token endpoint's URL, as given at construction.
    pub fn get_auth_token_url(&self) -> (r: String)
        ensures
            r@ == self.spec_token_url(),
    {
        self.auth_token_url.clone()
    }

    /// Prefixes a freshly acquired token with the bearer scheme; a blank
    /// token yields the empty string instead of a header value.
    pub fn parse_auth_token(&self, access_token_result: String) -> (r: String)
        ensures
            is_blank(access_token_result@) ==> r@ == Seq::<char>::empty(),
            !is_blank(access_token_result@) ==> r@ == "Bearer "@ + access_token_result@,
    {
        if str_is_blank(access_token_result.as_str()) {
            String::new()
        } else {
            String::from_str("Bearer ").concat(access_token_result.as_str())
        }
    }
}

} // verus!
