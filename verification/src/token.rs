//! Minting of the bearer tokens that the App Store Connect API accepts.
//!
//! A token is a JSON Web Token signed with ECDSA over P-256 and SHA-256. Its
//! header names the key, its claims name the issuer, the time of issue, the
//! expiry and the audience. What goes into a token is decided and proved
//! here; the signature itself is the work of the `jsonwebtoken` crate.

use crate::error::AppleCodesignError;
use crate::json::{
    json_members, json_number, json_object, json_string, json_unsigned, push_member,
    spec_member, spec_text_member,
};
use vstd::prelude::*;

verus! {

/// A signed token for use with the App Store Connect API.
pub type AppStoreConnectToken = String;

/// The audience that every token names.
pub const TOKEN_AUDIENCE: &'static str = "appstoreconnect-v1";

/// A private key in the form that the signing library keeps it.
#[verifier::external_type_specification]
#[verifier::external_body]
pub struct ExEncodingKey(jsonwebtoken::EncodingKey);

/// A point in time, as the system clock reports it.
#[verifier::external_type_specification]
#[verifier::external_body]
pub struct ExSystemTime(std::time::SystemTime);

/// The error of asking how long after a later time an earlier one lies.
#[verifier::external_type_specification]
#[verifier::external_body]
pub struct ExSystemTimeError(std::time::SystemTimeError);

/// The key that a DER encoded ECDSA private key gives.
pub uninterp spec fn ec_der_key(der: Seq<u8>) -> jsonwebtoken::EncodingKey;

/// The key that a PEM encoded ECDSA private key gives; `None` where the bytes
/// are no such key.
pub uninterp spec fn ec_pem_key(pem: Seq<u8>) -> Option<jsonwebtoken::EncodingKey>;

/// `EncodingKey::from_ec_der` keeps the bytes as they are, so which key comes
/// out depends on the bytes alone.
pub assume_specification[ jsonwebtoken::EncodingKey::from_ec_der ](der: &[u8]) -> (key:
    jsonwebtoken::EncodingKey)
    ensures
        key == ec_der_key(der@),
;

/// `EncodingKey::from_ec_pem` parses the bytes and either rejects them or
/// yields a key; which of the two, and which key, depends on the bytes alone.
pub assume_specification[ jsonwebtoken::EncodingKey::from_ec_pem ](pem: &[u8]) -> (r: Result<
    jsonwebtoken::EncodingKey,
    jsonwebtoken::errors::Error,
>)
    ensures
        r is Ok <==> ec_pem_key(pem@) is Some,
        r matches Ok(key) ==> ec_pem_key(pem@) == Some(key),
;

/// `Clone::clone` of a key yields an equal key.
pub assume_specification[ <jsonwebtoken::EncodingKey as Clone>::clone ](
    key: &jsonwebtoken::EncodingKey,
) -> (r: jsonwebtoken::EncodingKey)
    ensures
        r == *key,
;

/// `SystemTime::now` reads the system clock. Nothing is assumed of what it
/// reads.
pub assume_specification[ std::time::SystemTime::now ]() -> std::time::SystemTime;

/// How long after the Unix epoch a time lies, by `SystemTime::duration_since`,
/// which fails where the time lies before it. Nothing is assumed of the
/// result.
#[verifier::external_body]
fn since_unix_epoch(time: &std::time::SystemTime) -> Result<
    std::time::Duration,
    std::time::SystemTimeError,
> {
    time.duration_since(std::time::UNIX_EPOCH)
}

/// The whole seconds of a duration.
pub uninterp spec fn duration_seconds(duration: std::time::Duration) -> u64;

/// `Duration::as_secs` gives the whole seconds of a duration, which depend on
/// the duration alone.
pub assume_specification[ std::time::Duration::as_secs ](duration: &std::time::Duration) -> (seconds:
    u64)
    ensures
        seconds == duration_seconds(*duration),
;

/// The signing algorithm that a token header names.
#[derive(Clone, Copy, Debug, PartialEq, Eq, Structural)]
pub enum TokenAlgorithm {
    /// ECDSA over the curve P-256 with SHA-256.
    ES256,
}

/// What the header of a token says.
#[derive(Clone, Debug)]
pub struct TokenHeader {
    pub algorithm: TokenAlgorithm,
    pub key_id: Option<String>,
}

/// A token header as a mathematical value.
pub struct TokenHeaderView {
    pub algorithm: TokenAlgorithm,
    pub key_id: Option<Seq<char>>,
}

impl View for TokenHeader {
    type V = TokenHeaderView;

    open spec fn view(&self) -> TokenHeaderView {
        TokenHeaderView {
            algorithm: self.algorithm,
            key_id: match self.key_id {
                Some(key_id) => Some(key_id@),
                None => None,
            },
        }
    }
}

/// The claims of a token as a mathematical value, with both times in seconds
/// since the Unix epoch.
pub struct TokenClaims {
    pub issuer: Seq<char>,
    pub issued_at: int,
    pub expires_at: int,
    pub audience: Seq<char>,
}

/// The claims of a token.
#[derive(Clone, Debug)]
pub struct ConnectTokenRequest {
    /// The issuer id.
    pub iss: String,
    /// When the token was issued, in seconds since the Unix epoch.
    pub iat: u64,
    /// When the token expires, in seconds since the Unix epoch.
    pub exp: u64,
    /// The audience.
    pub aud: String,
}

impl View for ConnectTokenRequest {
    type V = TokenClaims;

    open spec fn view(&self) -> TokenClaims {
        TokenClaims {
            issuer: self.iss@,
            issued_at: self.iat as int,
            expires_at: self.exp as int,
            audience: self.aud@,
        }
    }
}

impl TokenClaims {
    /// `doc` is the object with exactly the members `iss`, `iat`, `exp` and
    /// `aud`, holding these claims.
    pub open spec fn is_encoded_by(self, doc: serde_json::Value) -> bool {
        &&& json_members(doc).dom() =~= set!["iss"@, "iat"@, "exp"@, "aud"@]
        &&& spec_text_member(doc, "iss"@) == Some(self.issuer)
        &&& spec_member(doc, "iat"@) matches Some(iat) && spec_unsigned(iat) == Some(
            self.issued_at,
        )
        &&& spec_member(doc, "exp"@) matches Some(exp) && spec_unsigned(exp) == Some(
            self.expires_at,
        )
        &&& spec_text_member(doc, "aud"@) == Some(self.audience)
    }
}

/// The value of a JSON number as an integer, where `json_unsigned` has one.
pub open spec fn spec_unsigned(doc: serde_json::Value) -> Option<int> {
    match json_unsigned(doc) {
        Some(value) => Some(value as int),
        None => None,
    }
}

impl ConnectTokenRequest {
    /// `doc` is the object with exactly the members `iss`, `iat`, `exp` and
    /// `aud`, holding these claims.
    pub open spec fn is_encoded_by(&self, doc: serde_json::Value) -> bool {
        self@.is_encoded_by(doc)
    }

    /// The JSON object that stands for these claims.
    pub fn to_json(&self) -> (doc: serde_json::Value)
        ensures
            self.is_encoded_by(doc),
    {
        let mut pairs: Vec<(String, serde_json::Value)> = Vec::new();
        push_member(&mut pairs, "iss", json_string(self.iss.as_str()));
        push_member(&mut pairs, "iat", json_number(self.iat));
        push_member(&mut pairs, "exp", json_number(self.exp));
        push_member(&mut pairs, "aud", json_string(self.aud.as_str()));
        proof {
            reveal_strlit("iss");
            reveal_strlit("iat");
            reveal_strlit("exp");
            reveal_strlit("aud");
            assert("iss"@[1] == 's' && "iat"@[1] == 'a' && "exp"@[1] == 'x' && "aud"@[1] == 'u');
        }
        json_object(pairs)
    }
}

/// The part of a token that is signed: the header and the claims, each
/// serialized and encoded, joined by a dot.
pub uninterp spec fn jwt_message(header: TokenHeaderView, claims: serde_json::Value) -> Seq<char>;

/// Signs a token with `jsonwebtoken::encode`, under a header that holds the
/// given algorithm and key id and is otherwise the library's default.
///
/// Whether the key is accepted is up to the library, and the signature is not
/// a function of the arguments. What is signed is: a token that comes out is
/// the encoded header, a dot, the encoded claims, a dot and the signature, so
/// it begins with the signed part and a dot.
#[verifier::external_body]
fn jwt_encode(
    header: &TokenHeader,
    claims: &serde_json::Value,
    key: &jsonwebtoken::EncodingKey,
) -> (r: Result<String, jsonwebtoken::errors::Error>)
    ensures
        r matches Ok(token) ==> (jwt_message(header@, *claims) + seq!['.']).is_prefix_of(token@),
{
    let algorithm = match header.algorithm {
        TokenAlgorithm::ES256 => jsonwebtoken::Algorithm::ES256,
    };
    let mut outside = jsonwebtoken::Header::new(algorithm);
    outside.kid = header.key_id.clone();
    jsonwebtoken::encode(&outside, claims, key)
}

/// `token` is a signed token that states the given header and claims: it
/// begins with the signed part of that header and of a document that holds
/// those claims, and a dot. What follows the dot is the signature.
pub open spec fn spec_token_states(
    token: Seq<char>,
    header: TokenHeaderView,
    claims: TokenClaims,
) -> bool {
    exists|doc: serde_json::Value| #[trigger]
        claims.is_encoded_by(doc) && (jwt_message(header, doc) + seq!['.']).is_prefix_of(token)
}

/// A key id, an issuer id and a private key: what it takes to mint tokens.
pub struct SigningIdentity {
    pub key_id: Seq<char>,
    pub issuer_id: Seq<char>,
    pub private_key: jsonwebtoken::EncodingKey,
}

/// What a token is to say: its header and its claims.
pub struct TokenContents {
    pub header: TokenHeader,
    pub claims: ConnectTokenRequest,
}

/// Mints tokens for one signing identity.
///
/// The identity is fixed when the encoder is made: a key id (a short
/// alphanumeric string), an issuer id (likely a UUID) and an ECDSA private
/// key, all three issued by Apple.
#[derive(Clone)]
pub struct ConnectTokenEncoder {
    key_id: String,
    issuer_id: String,
    encoding_key: jsonwebtoken::EncodingKey,
}

impl View for ConnectTokenEncoder {
    type V = SigningIdentity;

    closed spec fn view(&self) -> SigningIdentity {
        SigningIdentity {
            key_id: self.key_id@,
            issuer_id: self.issuer_id@,
            private_key: self.encoding_key,
        }
    }
}

impl ConnectTokenEncoder {
    /// Makes an encoder from a key that the signing library has already
    /// read. Every other constructor ends here.
    pub fn from_jwt_encoding_key(
        key_id: String,
        issuer_id: String,
        encoding_key: jsonwebtoken::EncodingKey,
    ) -> (encoder: Self)
        ensures
            encoder@ == (SigningIdentity {
                key_id: key_id@,
                issuer_id: issuer_id@,
                private_key: encoding_key,
            }),
    {
        Self { key_id, issuer_id, encoding_key }
    }

    /// Makes an encoder from a DER encoded ECDSA private key. The bytes are
    /// taken as they are: a key that cannot sign shows when a token is
    /// minted.
    pub fn from_ecdsa_der(key_id: String, issuer_id: String, der_data: &[u8]) -> (r: Result<
        Self,
        AppleCodesignError,
    >)
        ensures
            r matches Ok(encoder) && encoder@ == (SigningIdentity {
                key_id: key_id@,
                issuer_id: issuer_id@,
                private_key: ec_der_key(der_data@),
            }),
    {
        let encoding_key = jsonwebtoken::EncodingKey::from_ec_der(der_data);
        Ok(Self::from_jwt_encoding_key(key_id, issuer_id, encoding_key))
    }

    /// Makes an encoder from a PEM encoded ECDSA private key, or fails with
    /// the signing library's error where the bytes are no such key.
    pub fn from_ecdsa_pem(key_id: String, issuer_id: String, pem_data: &[u8]) -> (r: Result<
        Self,
        AppleCodesignError,
    >)
        ensures
            match ec_pem_key(pem_data@) {
                Some(key) => r matches Ok(encoder) && encoder@ == (SigningIdentity {
                    key_id: key_id@,
                    issuer_id: issuer_id@,
                    private_key: key,
                }),
                None => r matches Err(AppleCodesignError::JsonWebToken(_)),
            },
    {
        match jsonwebtoken::EncodingKey::from_ec_pem(pem_data) {
            Ok(encoding_key) => Ok(Self::from_jwt_encoding_key(key_id, issuer_id, encoding_key)),
            Err(error) => Err(AppleCodesignError::JsonWebToken(error)),
        }
    }

    /// The key id of the identity.
    pub fn key_id(&self) -> (key_id: &str)
        ensures
            key_id@ == self@.key_id,
    {
        self.key_id.as_str()
    }

    /// The issuer id of the identity.
    pub fn issuer_id(&self) -> (issuer_id: &str)
        ensures
            issuer_id@ == self@.issuer_id,
    {
        self.issuer_id.as_str()
    }

    /// The header of every token of an identity: the algorithm is ES256, and
    /// the key id is the identity's.
    pub open spec fn spec_token_header(identity: SigningIdentity) -> TokenHeaderView {
        TokenHeaderView { algorithm: TokenAlgorithm::ES256, key_id: Some(identity.key_id) }
    }

    /// The claims of a token of an identity, issued at `now` to hold for
    /// `duration` seconds.
    pub open spec fn spec_token_claims(identity: SigningIdentity, now: int, duration: int) -> TokenClaims {
        TokenClaims {
            issuer: identity.issuer_id,
            issued_at: now,
            expires_at: now + duration,
            audience: TOKEN_AUDIENCE@,
        }
    }

    /// `token` is a token of an identity, issued at `now` to hold for
    /// `duration` seconds: a signed token that states the header and the
    /// claims of such a token.
    pub open spec fn spec_minted(
        identity: SigningIdentity,
        now: int,
        duration: int,
        token: Seq<char>,
    ) -> bool {
        spec_token_states(
            token,
            Self::spec_token_header(identity),
            Self::spec_token_claims(identity, now, duration),
        )
    }

    /// What a token issued at `now` for `duration` seconds is to say, or
    /// `TokenLifetimeTooLong` where the expiry is past what 64 bits hold.
    pub fn token_contents(&self, now: u64, duration: u64) -> (r: Result<
        TokenContents,
        AppleCodesignError,
    >)
        ensures
            if now + duration <= u64::MAX {
                &&& r matches Ok(contents)
                &&& contents.header@ == Self::spec_token_header(self@)
                &&& contents.claims@ == Self::spec_token_claims(self@, now as int, duration as int)
            } else {
                r == Err::<TokenContents, AppleCodesignError>(
                    AppleCodesignError::TokenLifetimeTooLong,
                )
            },
    {
        let exp = match now.checked_add(duration) {
            Some(exp) => exp,
            None => return Err(AppleCodesignError::TokenLifetimeTooLong),
        };
        let header = TokenHeader {
            algorithm: TokenAlgorithm::ES256,
            key_id: Some(self.key_id.clone()),
        };
        let claims = ConnectTokenRequest {
            iss: self.issuer_id.clone(),
            iat: now,
            exp,
            aud: String::from_str(TOKEN_AUDIENCE),
        };
        Ok(TokenContents { header, claims })
    }

    /// What the caller of the signing library gets for each outcome of
    /// signing: the token, or the library's error as `JsonWebToken`.
    pub fn signed_token(outcome: Result<String, jsonwebtoken::errors::Error>) -> (r: Result<
        AppStoreConnectToken,
        AppleCodesignError,
    >)
        ensures
            match outcome {
                Ok(token) => r == Ok::<AppStoreConnectToken, AppleCodesignError>(token),
                Err(error) => r == Err::<AppStoreConnectToken, AppleCodesignError>(
                    AppleCodesignError::JsonWebToken(error),
                ),
            },
    {
        match outcome {
            Ok(token) => Ok(token),
            Err(error) => Err(AppleCodesignError::JsonWebToken(error)),
        }
    }

    /// Mints a token as of the time `now`, in seconds since the Unix epoch,
    /// to hold for `duration` seconds.
    ///
    /// A token that comes out states what
    /// [`ConnectTokenEncoder::token_contents`] gives for that time and
    /// duration. Whether signing succeeds is up to the signing library and
    /// the key; where it fails the error is `JsonWebToken`.
    pub fn new_token_at(&self, now: u64, duration: u64) -> (r: Result<
        AppStoreConnectToken,
        AppleCodesignError,
    >)
        ensures
            if now + duration <= u64::MAX {
                match r {
                    Ok(token) => Self::spec_minted(self@, now as int, duration as int, token@),
                    Err(error) => error is JsonWebToken,
                }
            } else {
                r == Err::<AppStoreConnectToken, AppleCodesignError>(
                    AppleCodesignError::TokenLifetimeTooLong,
                )
            },
    {
        match self.token_contents(now, duration) {
            Ok(contents) => {
                let claims = contents.claims.to_json();
                Self::signed_token(jwt_encode(&contents.header, &claims, &self.encoding_key))
            },
            Err(error) => Err(error),
        }
    }

    /// The time that a reading of the clock stands for, in seconds since the
    /// Unix epoch, or `SystemClockBeforeUnixEpoch` where the clock reads a
    /// time before it.
    pub fn clock_seconds(
        reading: Result<std::time::Duration, std::time::SystemTimeError>,
    ) -> (r: Result<u64, AppleCodesignError>)
        ensures
            match reading {
                Ok(elapsed) => r == Ok::<u64, AppleCodesignError>(duration_seconds(elapsed)),
                Err(_) => r == Err::<u64, AppleCodesignError>(
                    AppleCodesignError::SystemClockBeforeUnixEpoch,
                ),
            },
    {
        match reading {
            Ok(elapsed) => Ok(elapsed.as_secs()),
            Err(_) => Err(AppleCodesignError::SystemClockBeforeUnixEpoch),
        }
    }

    /// Mints a token as of now to hold for `duration` seconds.
    ///
    /// The time is read from the system clock, turned into seconds by
    /// [`ConnectTokenEncoder::clock_seconds`] and handed to
    /// [`ConnectTokenEncoder::new_token_at`]. A token that comes out is a
    /// token of this identity, issued at a time that 64 bits hold together
    /// with its expiry, `duration` seconds later. Which time that is, and
    /// whether a token comes out, is up to the clock, the signing library and
    /// the key.
    pub fn new_token(&self, duration: u64) -> (r: Result<AppStoreConnectToken, AppleCodesignError>)
        ensures
            match r {
                Ok(token) => exists|now: int|
                    0 <= now && now + duration <= u64::MAX && #[trigger] Self::spec_minted(
                        self@,
                        now,
                        duration as int,
                        token@,
                    ),
                Err(error) => error is JsonWebToken || error is SystemClockBeforeUnixEpoch || (error
                    is TokenLifetimeTooLong && duration > 0),
            },
    {
        match Self::clock_seconds(since_unix_epoch(&std::time::SystemTime::now())) {
            Ok(now) => self.new_token_at(now, duration),
            Err(error) => Err(error),
        }
    }
}

/// A token expires exactly `duration` seconds after it was issued, and its
/// header names the key of the identity that signs it.
pub proof fn law_token_lifetime_and_key(identity: SigningIdentity, now: nat, duration: nat)
    ensures
        ConnectTokenEncoder::spec_token_claims(identity, now as int, duration as int).expires_at
            - ConnectTokenEncoder::spec_token_claims(
            identity,
            now as int,
            duration as int,
        ).issued_at == duration,
        ConnectTokenEncoder::spec_token_header(identity).key_id == Some(identity.key_id),
{
}

/// A token of an identity is a signed token that states, in its header, the
/// key of the identity and, in its claims, an expiry exactly `duration`
/// seconds after the time of issue.
pub proof fn law_minted_token_lifetime_and_key(
    identity: SigningIdentity,
    now: nat,
    duration: nat,
    token: Seq<char>,
)
    requires
        ConnectTokenEncoder::spec_minted(identity, now as int, duration as int, token),
    ensures
        exists|header: TokenHeaderView, claims: TokenClaims| #[trigger]
            spec_token_states(token, header, claims) && header.key_id == Some(identity.key_id)
                && claims.expires_at - claims.issued_at == duration,
{
    assert(spec_token_states(
        token,
        ConnectTokenEncoder::spec_token_header(identity),
        ConnectTokenEncoder::spec_token_claims(identity, now as int, duration as int),
    ));
}

/// Tokens are issued at the time that the clock reads: of two tokens of one
/// identity, the one minted at the later reading has the later time of issue,
/// and at equal readings the times of issue are equal.
pub proof fn law_issued_at_follows_clock(
    identity: SigningIdentity,
    first: nat,
    second: nat,
    duration: nat,
)
    requires
        first <= second,
    ensures
        ConnectTokenEncoder::spec_token_claims(identity, first as int, duration as int).issued_at
            <= ConnectTokenEncoder::spec_token_claims(
            identity,
            second as int,
            duration as int,
        ).issued_at,
        first < second ==> ConnectTokenEncoder::spec_token_claims(
            identity,
            first as int,
            duration as int,
        ).issued_at < ConnectTokenEncoder::spec_token_claims(
            identity,
            second as int,
            duration as int,
        ).issued_at,
{
}

} // verus!
