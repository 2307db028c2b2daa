//! Validating bearer JWTs against a JWK set.

use vstd::prelude::*;
use vstd::string::*;
use crate::error::has_prefix;
use crate::error::{ApiError, ErrorVerbosity, JwtError, JwtErrorType, InternalServerError, is_internal_error, opt_view};
use crate::foreign::{
    jwt_error_text, jwt_error_is_expired, jwt_header_kid, decode_header_kid, rsa_components_accepted,
    decoding_key_from_rsa_components, is_algorithm_name, algorithm_from_str, decode_claims,
    jwt_accepted_apart_from_time, strings_view,
};
use crate::traits::{StateProvider, JwtValidationErrorProvider};
use crate::types::used_bearer_token::UsedBearerToken;

verus! {

/// Why a JWT failed validation.
#[derive(Debug)]
pub enum JwtValidationError {
    /// The header could not be decoded.
    DecodeHeader(jsonwebtoken::errors::Error),
    /// The header has no `kid`.
    NoKid,
    /// No JWK of the set has the token's `kid`.
    NoMatchingJWK { kid: String },
    /// The matching JWK is not an RSA key.
    UnsupportedAlgorithm,
    /// The RSA components of the JWK could not make a decoding key.
    DecodingKey(jsonwebtoken::errors::Error),
    /// The JWK names no key algorithm.
    KeyAlgorithmNotFound,
    /// The JWK's key algorithm is not a signature algorithm.
    ValidationAlgorithm { key_algorithm: String, err: jsonwebtoken::errors::Error },
    /// Decoding or validating the token failed; `expired` records whether `jsonwebtoken`
    /// refused it as expired.
    TokenInvalid { err: jsonwebtoken::errors::Error, expired: bool },
}

impl JwtValidationError {
    /// Whether `text` is the message of this error. Where `jsonwebtoken`'s own error text is
    /// part of the message, only the part before it is known.
    pub open spec fn message_fits(self, text: Seq<char>) -> bool {
        match self {
            JwtValidationError::DecodeHeader(_) => has_prefix(text, "Error decoding header: "@),
            JwtValidationError::NoKid => text == "Token doesn't have a kid header field"@,
            JwtValidationError::NoMatchingJWK { kid } =>
                text == "No matching JWK found for the given kid: "@ + kid@,
            JwtValidationError::UnsupportedAlgorithm => text == "JWK algorithm is not supported"@,
            JwtValidationError::DecodingKey(_) => has_prefix(text, "Error creating decoding key: "@),
            JwtValidationError::KeyAlgorithmNotFound => text == "No key algorithm found in JWK"@,
            JwtValidationError::ValidationAlgorithm { key_algorithm, .. } => has_prefix(
                text,
                "Error creating validation algorithm from Key Algorithm: "@ + key_algorithm@ + ", "@,
            ),
            JwtValidationError::TokenInvalid { .. } => has_prefix(text, "Error validating token: "@),
        }
    }

    /// The error's message.
    pub fn message(&self) -> (text: String)
        ensures
            self.message_fits(text@),
    {
        match self {
            JwtValidationError::DecodeHeader(err) => prefixed("Error decoding header: ", jwt_error_text(err)),
            JwtValidationError::NoKid => String::from_str("Token doesn't have a kid header field"),
            JwtValidationError::NoMatchingJWK { kid } => {
                let mut text = String::from_str("No matching JWK found for the given kid: ");
                text.append(kid.as_str());
                text
            },
            JwtValidationError::UnsupportedAlgorithm => String::from_str("JWK algorithm is not supported"),
            JwtValidationError::DecodingKey(err) => prefixed("Error creating decoding key: ", jwt_error_text(err)),
            JwtValidationError::KeyAlgorithmNotFound => String::from_str("No key algorithm found in JWK"),
            JwtValidationError::ValidationAlgorithm { key_algorithm, err } => {
                let mut head = String::from_str("Error creating validation algorithm from Key Algorithm: ");
                head.append(key_algorithm.as_str());
                head.append(", ");
                prefixed(head.as_str(), jwt_error_text(err))
            },
            JwtValidationError::TokenInvalid { err, .. } => prefixed("Error validating token: ", jwt_error_text(err)),
        }
    }

    /// The token itself was refused, as expired.
    pub open spec fn token_expired(self) -> bool {
        self matches JwtValidationError::TokenInvalid { expired, .. } && expired
    }

    /// Whether the token was refused for having expired. Only a refusal of the token itself
    /// can be one.
    pub fn is_expired(&self) -> (res: bool)
        ensures
            res == self.token_expired(),
    {
        match self {
            JwtValidationError::TokenInvalid { expired, .. } => *expired,
            _ => false,
        }
    }
}

fn prefixed(prefix: &str, rest: String) -> (text: String)
    ensures
        has_prefix(text@, prefix@),
{
    let mut text = prefix.to_owned();
    text.append(rest.as_str());
    assert(text@.take(prefix@.len() as int) =~= prefix@);
    text
}


impl JwtValidationErrorProvider for JwtValidationError {
    open spec fn spec_is_expired(&self) -> bool {
        self.token_expired()
    }

    fn is_expired(&self) -> (res: bool) {
        JwtValidationError::is_expired(self)
    }
}

/// The RSA components of a JWK.
#[derive(Clone, Debug)]
pub struct RsaComponents {
    pub n: String,
    pub e: String,
}

/// What validation reads of a JWK: its key id, its RSA components if it is an RSA key, and
/// the name of its key algorithm.
#[derive(Clone, Debug)]
pub struct Jwk {
    pub key_id: Option<String>,
    pub rsa: Option<RsaComponents>,
    pub key_algorithm: Option<String>,
}

/// A set of JWKs, in the order the issuer published them.
#[derive(Clone, Debug)]
pub struct JwkSet {
    pub keys: Vec<Jwk>,
}

/// The first key whose id is `kid`.
pub open spec fn jwk_lookup(keys: Seq<Jwk>, kid: Seq<char>) -> Option<Jwk>
    decreases keys.len(),
{
    if keys.len() == 0 {
        None
    } else if opt_view(keys[0].key_id) == Some(kid) {
        Some(keys[0])
    } else {
        jwk_lookup(keys.drop_first(), kid)
    }
}

fn string_eq(a: &String, b: &str) -> (res: bool)
    ensures
        res == (a@ == b@),
{
    let other = b.to_owned();
    *a == other
}

impl JwkSet {
    /// The first key whose id is `kid` (`JwkSet::find`).
    pub fn find(&self, kid: &str) -> (res: Option<&Jwk>)
        ensures
            match res {
                Some(jwk) => jwk_lookup(self.keys@, kid@) == Some(*jwk),
                None => jwk_lookup(self.keys@, kid@) is None,
            },
    {
        let mut i: usize = 0;
        assert(self.keys@.skip(0) =~= self.keys@);
        while i < self.keys.len()
            invariant
                i <= self.keys@.len(),
                jwk_lookup(self.keys@, kid@) == jwk_lookup(self.keys@.skip(i as int), kid@),
            decreases self.keys@.len() - i,
        {
            let jwk = &self.keys[i];
            let ghost rest = self.keys@.skip(i as int);
            assert(rest[0] == self.keys@[i as int]);
            assert(rest.drop_first() =~= self.keys@.skip(i + 1));
            let matches = match &jwk.key_id {
                Some(id) => string_eq(id, kid),
                None => false,
            };
            if matches {
                return Some(jwk);
            }
            i = i + 1;
        }
        assert(self.keys@.skip(i as int) =~= Seq::<Jwk>::empty());
        None
    }
}

/// What validating `token` against `jwks` gives, step by step: the header must decode and
/// name a `kid`, a key with that id must exist and be an RSA key whose components make a
/// decoding key, and the key must name a signature algorithm. Past these checks the token is
/// decoded and validated with that key and algorithm and with `audience` and `issuer`: it is
/// refused as `TokenInvalid`, or accepted only if it passes the checks of `jsonwebtoken` that do
/// not depend on the time. Which of the two depends on the time.
pub open spec fn validation_outcome_fits(
    res: Result<serde_json::Value, JwtValidationError>,
    token: Seq<char>,
    jwks: JwkSet,
    audience: Seq<String>,
    issuer: Seq<String>,
) -> bool {
    match jwt_header_kid(token) {
        None => res matches Err(JwtValidationError::DecodeHeader(_)),
        Some(None) => res matches Err(JwtValidationError::NoKid),
        Some(Some(kid)) => match jwk_lookup(jwks.keys@, kid) {
            None => res matches Err(JwtValidationError::NoMatchingJWK { kid: k }) && k@ == kid,
            Some(jwk) => match jwk.rsa {
                None => res matches Err(JwtValidationError::UnsupportedAlgorithm),
                Some(rsa) => if !rsa_components_accepted(rsa.n@, rsa.e@) {
                    res matches Err(JwtValidationError::DecodingKey(_))
                } else {
                    match jwk.key_algorithm {
                        None => res matches Err(JwtValidationError::KeyAlgorithmNotFound),
                        Some(alg) => if !is_algorithm_name(alg@) {
                            res matches Err(JwtValidationError::ValidationAlgorithm { key_algorithm: k, .. })
                                && k@ == alg@
                        } else {
                            &&& (res is Ok || res matches Err(JwtValidationError::TokenInvalid { .. }))
                            &&& res is Ok ==> jwt_accepted_apart_from_time(
                                token,
                                rsa.n@,
                                rsa.e@,
                                alg@,
                                strings_view(audience),
                                strings_view(issuer),
                            )
                        },
                    }
                },
            },
        },
    }
}

/// Validates JWTs against a JWK set.
pub struct JwtValidator;

impl JwtValidator {
    /// Validates `jwt` and returns its claims.
    pub fn validate(
        jwt: &str,
        jwks: &JwkSet,
        audience: &Vec<String>,
        issuer: &Vec<String>,
        validate_nbf: bool,
    ) -> (res: Result<serde_json::Value, JwtValidationError>)
        ensures
            validation_outcome_fits(res, jwt@, *jwks, audience@, issuer@),
    {
        let kid = match decode_header_kid(jwt) {
            Ok(kid) => kid,
            Err(err) => return Err(JwtValidationError::DecodeHeader(err)),
        };
        let kid = match kid {
            Some(kid) => kid,
            None => return Err(JwtValidationError::NoKid),
        };
        let jwk = match jwks.find(kid.as_str()) {
            Some(jwk) => jwk,
            None => return Err(JwtValidationError::NoMatchingJWK { kid }),
        };
        let rsa = match &jwk.rsa {
            Some(rsa) => rsa,
            None => return Err(JwtValidationError::UnsupportedAlgorithm),
        };
        let decoding_key = match decoding_key_from_rsa_components(rsa.n.as_str(), rsa.e.as_str()) {
            Ok(key) => key,
            Err(err) => return Err(JwtValidationError::DecodingKey(err)),
        };
        let key_algorithm = match &jwk.key_algorithm {
            Some(name) => name,
            None => return Err(JwtValidationError::KeyAlgorithmNotFound),
        };
        let algorithm = match algorithm_from_str(key_algorithm.as_str()) {
            Ok(algorithm) => algorithm,
            Err(err) => return Err(
                JwtValidationError::ValidationAlgorithm { key_algorithm: key_algorithm.clone(), err },
            ),
        };
        let decoded = match decode_claims(jwt, &decoding_key, &algorithm, audience, issuer, validate_nbf) {
            Ok(claims) => Ok(claims),
            Err(err) => {
                let expired = jwt_error_is_expired(&err);
                Err((err, expired))
            },
        };
        Self::finish(decoded)
    }

    /// Maps the outcome of decoding a token: its claims, or the refusal as `TokenInvalid`,
    /// with whether `jsonwebtoken` refused it as expired.
    pub fn finish(decoded: Result<serde_json::Value, (jsonwebtoken::errors::Error, bool)>) -> (res: Result<
        serde_json::Value,
        JwtValidationError,
    >)
        ensures
            match decoded {
                Ok(claims) => res == Ok::<serde_json::Value, JwtValidationError>(claims),
                Err((err, expired)) => res == Err::<serde_json::Value, JwtValidationError>(
                    JwtValidationError::TokenInvalid { err, expired },
                ),
            },
    {
        match decoded {
            Ok(claims) => Ok(claims),
            Err((err, expired)) => Err(JwtValidationError::TokenInvalid { err, expired }),
        }
    }
}

/// The audience, issuers and `nbf` setting that tokens are validated with.
pub trait JwksProvider {
    spec fn spec_audience(&self) -> Seq<String>;

    spec fn spec_issuer(&self) -> Seq<String>;

    spec fn spec_validate_nbf(&self) -> bool;

    fn audience(&self) -> (audience: &Vec<String>)
        ensures
            audience@ == self.spec_audience(),
    ;

    fn issuer(&self) -> (issuer: &Vec<String>)
        ensures
            issuer@ == self.spec_issuer(),
    ;

    fn validate_nbf(&self) -> (validate: bool)
        ensures
            validate == self.spec_validate_nbf(),
    ;
}

/// The claims of a validated bearer JWT.
#[derive(Debug)]
pub struct ApiJwt<C>(pub C);

/// The reply to a validation outcome: the claims, or a JWT error built at `verbosity`:
/// `ExpiredSignature` for a token refused as expired, `Invalid` with the error otherwise.
pub open spec fn jwt_outcome_error(
    res: Result<ApiJwt<serde_json::Value>, ApiError>,
    verbosity: ErrorVerbosity,
    outcome: Result<serde_json::Value, JwtValidationError>,
) -> bool {
    match outcome {
        Ok(claims) => res matches Ok(jwt) && jwt.0 == claims,
        Err(err) => res matches Err(ApiError::Jwt(e)) && if err.token_expired() {
            e.built(verbosity, JwtErrorType::ExpiredSignature)
        } else {
            e.built(verbosity, JwtErrorType::Invalid { err })
        },
    }
}

impl ApiJwt<serde_json::Value> {
    /// Maps a validation outcome: the claims, or a JWT error that is `ExpiredSignature` when
    /// the token had expired and `Invalid` otherwise.
    pub fn from_validation(
        verbosity: ErrorVerbosity,
        outcome: Result<serde_json::Value, JwtValidationError>,
    ) -> (res: Result<Self, ApiError>)
        ensures
            jwt_outcome_error(res, verbosity, outcome),
    {
        match outcome {
            Ok(claims) => Ok(ApiJwt(claims)),
            Err(err) => {
                if err.is_expired() {
                    Err(ApiError::Jwt(JwtError::new(verbosity, JwtErrorType::ExpiredSignature)))
                } else {
                    Err(ApiError::Jwt(JwtError::new(verbosity, JwtErrorType::Invalid { err })))
                }
            },
        }
    }

    /// Validates a bearer token with the state's settings against the JWK set the state
    /// provided, or maps the failure to provide one (its text) to an internal error.
    pub fn from_bearer_token<S: StateProvider + JwksProvider>(
        token: &UsedBearerToken,
        jwks: Result<&JwkSet, String>,
        state: &S,
    ) -> (res: Result<Self, ApiError>)
        ensures
            match jwks {
                Err(text) => res matches Err(e) && is_internal_error(e, state.spec_error_verbosity(), text@),
                Ok(set) => exists|outcome: Result<serde_json::Value, JwtValidationError>|
                    #[trigger] validation_outcome_fits(outcome, token.value@, *set, state.spec_audience(), state.spec_issuer())
                        && jwt_outcome_error(res, state.spec_error_verbosity(), outcome),
            },
    {
        let verbosity = state.error_verbosity();
        let set = match jwks {
            Ok(set) => set,
            Err(text) => {
                return Err(ApiError::InternalServerError(InternalServerError::from_generic_error(verbosity, text)));
            },
        };
        let outcome = JwtValidator::validate(
            token.value.as_str(),
            set,
            state.audience(),
            state.issuer(),
            state.validate_nbf(),
        );
        let ghost seen = outcome;
        let res = Self::from_validation(verbosity, outcome);
        assert(validation_outcome_fits(seen, token.value@, *set, state.spec_audience(), state.spec_issuer())
            && jwt_outcome_error(res, verbosity, seen));
        res
    }
}

} // verus!
