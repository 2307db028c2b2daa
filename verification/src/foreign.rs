//! The calls this library makes into `http`, `base64`, `jsonwebtoken` and std's UTF-8
//! decoding. Each item here is trusted: its contract restates what the called code does,
//! as the code in the version this crate builds against shows it.

use vstd::prelude::*;
use vstd::utf8::*;
use crate::text::nat_decimal;
use base64::Engine;

verus! {

/// A byte that `http::HeaderValue` accepts in a header value.
pub open spec fn is_header_value_byte(b: u8) -> bool {
    (b >= 32 && b != 127) || b == 9
}

/// A byte that `http::HeaderValue::to_str` accepts: visible ASCII or a tab.
pub open spec fn is_visible_ascii(b: u8) -> bool {
    (b >= 32 && b < 127) || b == 9
}

/// The text of bytes that are all ASCII, one character per byte.
pub open spec fn ascii_text(bytes: Seq<u8>) -> Seq<char> {
    Seq::new(bytes.len(), |i: int| bytes[i] as char)
}

#[verifier::external_type_specification]
#[verifier::external_body]
pub struct ExToStrError(http::header::ToStrError);

#[verifier::external_type_specification]
#[verifier::external_body]
pub struct ExFromUtf8Error(std::string::FromUtf8Error);

#[verifier::external_type_specification]
#[verifier::external_body]
pub struct ExJwtLibError(jsonwebtoken::errors::Error);

#[verifier::external_type_specification]
#[verifier::external_body]
pub struct ExDecodingKey(jsonwebtoken::DecodingKey);

#[verifier::external_type_specification]
#[verifier::external_body]
pub struct ExAlgorithm(jsonwebtoken::Algorithm);

#[verifier::external_type_specification]
#[verifier::external_body]
pub struct ExJsonValue(serde_json::Value);

/// Reads header value bytes as text through `http::HeaderValue::from_bytes` and
/// `HeaderValue::to_str`. `from_bytes` accepts exactly the bytes of `is_header_value_byte`
/// (the `requires`); `to_str` succeeds exactly when every byte is visible ASCII or a tab,
/// and then hands back those bytes as text.
#[verifier::external_body]
pub fn header_value_to_str(bytes: &[u8]) -> (res: Result<String, http::header::ToStrError>)
    requires
        forall|i: int| 0 <= i < bytes@.len() ==> is_header_value_byte(#[trigger] bytes@[i]),
    ensures
        res is Ok <==> (forall|i: int| 0 <= i < bytes@.len() ==> is_visible_ascii(#[trigger] bytes@[i])),
        res matches Ok(s) ==> s@ == ascii_text(bytes@),
{
    let value = http::HeaderValue::from_bytes(bytes).unwrap();
    value.to_str().map(|s| s.to_string())
}

/// The `Display` text of `http::header::ToStrError`, which the source writes as one constant.
#[verifier::external_body]
pub fn to_str_error_text(err: &http::header::ToStrError) -> (text: String)
    ensures
        text@ == "failed to convert header to a str"@,
{
    err.to_string()
}

/// Why `base64` refused an input, with the fields of `base64::DecodeError`.
#[derive(Clone, Copy, Debug, PartialEq, Eq, Structural)]
pub enum Base64DecodeError {
    /// A byte outside the alphabet: offset, byte.
    InvalidByte(usize, u8),
    /// The number of symbols cannot end a quad.
    InvalidLength(usize),
    /// The last symbol carries bits that would be dropped: offset, byte.
    InvalidLastSymbol(usize, u8),
    /// The padding is absent or not canonical.
    InvalidPadding,
}

/// What `base64::engine::general_purpose::STANDARD.decode` gives for an input.
pub uninterp spec fn base64_standard_decoded(input: Seq<u8>) -> Result<Seq<u8>, Base64DecodeError>;

/// Decodes with the standard, padded alphabet of `base64`
/// (`engine::general_purpose::STANDARD.decode`); the outcome is named
/// `base64_standard_decoded` of the input bytes.
#[verifier::external_body]
pub fn base64_standard_decode(input: &[u8]) -> (res: Result<Vec<u8>, Base64DecodeError>)
    ensures
        match res {
            Ok(bytes) => base64_standard_decoded(input@) == Ok::<Seq<u8>, Base64DecodeError>(bytes@),
            Err(e) => base64_standard_decoded(input@) == Err::<Seq<u8>, Base64DecodeError>(e),
        },
{
    match base64::engine::general_purpose::STANDARD.decode(input) {
        Ok(bytes) => Ok(bytes),
        Err(base64::DecodeError::InvalidByte(index, byte)) => Err(Base64DecodeError::InvalidByte(index, byte)),
        Err(base64::DecodeError::InvalidLength(len)) => Err(Base64DecodeError::InvalidLength(len)),
        Err(base64::DecodeError::InvalidLastSymbol(index, byte)) => Err(Base64DecodeError::InvalidLastSymbol(index, byte)),
        Err(base64::DecodeError::InvalidPadding) => Err(Base64DecodeError::InvalidPadding),
    }
}

/// The text that `base64::DecodeError`'s `Display` writes.
pub open spec fn base64_error_text(e: Base64DecodeError) -> Seq<char> {
    match e {
        Base64DecodeError::InvalidByte(index, byte) =>
            "Invalid symbol "@ + nat_decimal(byte as nat) + ", offset "@ + nat_decimal(index as nat) + "."@,
        Base64DecodeError::InvalidLength(len) => "Invalid input length: "@ + nat_decimal(len as nat),
        Base64DecodeError::InvalidLastSymbol(index, byte) =>
            "Invalid last symbol "@ + nat_decimal(byte as nat) + ", offset "@ + nat_decimal(index as nat) + "."@,
        Base64DecodeError::InvalidPadding => "Invalid padding"@,
    }
}

/// The `Display` text of `base64::DecodeError`, as its source writes it.
#[verifier::external_body]
pub fn base64_decode_error_text(e: &Base64DecodeError) -> (text: String)
    ensures
        text@ == base64_error_text(*e),
{
    let err = match *e {
        Base64DecodeError::InvalidByte(index, byte) => base64::DecodeError::InvalidByte(index, byte),
        Base64DecodeError::InvalidLength(len) => base64::DecodeError::InvalidLength(len),
        Base64DecodeError::InvalidLastSymbol(index, byte) => base64::DecodeError::InvalidLastSymbol(index, byte),
        Base64DecodeError::InvalidPadding => base64::DecodeError::InvalidPadding,
    };
    err.to_string()
}

/// `String::from_utf8`: succeeds exactly on well-formed UTF-8, and then holds the
/// characters those bytes encode.
#[verifier::external_body]
pub fn string_from_utf8(bytes: Vec<u8>) -> (res: Result<String, std::string::FromUtf8Error>)
    ensures
        res is Ok <==> valid_utf8(bytes@),
        res matches Ok(s) ==> s@ == decode_utf8(bytes@),
{
    String::from_utf8(bytes)
}

/// The `Display` text of `std::string::FromUtf8Error`. Its documentation does not give the
/// wording, so nothing is stated of the text.
#[verifier::external_body]
pub fn utf8_error_text(err: &std::string::FromUtf8Error) -> String {
    err.to_string()
}


/// The `Display` text of a `jsonwebtoken` error. The text depends on the error's kind, which
/// the library holds opaque, so nothing is stated of it.
#[verifier::external_body]
pub fn jwt_error_text(err: &jsonwebtoken::errors::Error) -> String {
    err.to_string()
}

/// Whether a `jsonwebtoken` error is of kind `ExpiredSignature`. The error is opaque to the
/// library, so nothing is stated of the answer.
#[verifier::external_body]
pub fn jwt_error_is_expired(err: &jsonwebtoken::errors::Error) -> bool {
    matches!(err.kind(), jsonwebtoken::errors::ErrorKind::ExpiredSignature)
}


/// The `kid` of a token's header as `jsonwebtoken::decode_header` reads it: `None` when the
/// header cannot be decoded, otherwise the header's optional `kid`.
pub uninterp spec fn jwt_header_kid(token: Seq<char>) -> Option<Option<Seq<char>>>;

/// `jsonwebtoken::decode_header`, keeping the header's `kid`; the outcome is named
/// `jwt_header_kid` of the token.
#[verifier::external_body]
pub fn decode_header_kid(token: &str) -> (res: Result<Option<String>, jsonwebtoken::errors::Error>)
    ensures
        match res {
            Ok(kid) => jwt_header_kid(token@) == Some(crate::error::opt_view(kid)),
            Err(_) => jwt_header_kid(token@) is None,
        },
{
    jsonwebtoken::decode_header(token).map(|header| header.kid)
}

/// A `jsonwebtoken::DecodingKey` made from RSA components, with the components it was made
/// from. Only `decoding_key_from_rsa_components` makes one.
pub struct RsaDecodingKey {
    key: jsonwebtoken::DecodingKey,
    modulus: Ghost<Seq<char>>,
    exponent: Ghost<Seq<char>>,
}

impl RsaDecodingKey {
    /// The modulus the key was made from.
    pub closed spec fn modulus(self) -> Seq<char> {
        self.modulus@
    }

    /// The exponent the key was made from.
    pub closed spec fn exponent(self) -> Seq<char> {
        self.exponent@
    }
}

/// A `jsonwebtoken::Algorithm`, with the name it was read from. Only `algorithm_from_str`
/// makes one.
pub struct NamedAlgorithm {
    algorithm: jsonwebtoken::Algorithm,
    name: Ghost<Seq<char>>,
}

impl NamedAlgorithm {
    /// The name the algorithm was read from.
    pub closed spec fn name(self) -> Seq<char> {
        self.name@
    }
}

/// Whether `jsonwebtoken::DecodingKey::from_rsa_components` accepts a modulus and an exponent
/// (both must be URL-safe base64 without padding).
pub uninterp spec fn rsa_components_accepted(modulus: Seq<char>, exponent: Seq<char>) -> bool;

/// `jsonwebtoken::DecodingKey::from_rsa_components`; whether it succeeds is named
/// `rsa_components_accepted` of the two components.
#[verifier::external_body]
pub fn decoding_key_from_rsa_components(modulus: &str, exponent: &str) -> (res: Result<
    RsaDecodingKey,
    jsonwebtoken::errors::Error,
>)
    ensures
        res is Ok <==> rsa_components_accepted(modulus@, exponent@),
        res matches Ok(key) ==> key.modulus() == modulus@ && key.exponent() == exponent@,
{
    jsonwebtoken::DecodingKey::from_rsa_components(modulus, exponent)
        .map(|key| RsaDecodingKey { key, modulus: Ghost(modulus@), exponent: Ghost(exponent@) })
}

/// The names that `jsonwebtoken::Algorithm`'s `FromStr` accepts.
pub open spec fn is_algorithm_name(s: Seq<char>) -> bool {
    ||| s == "HS256"@
    ||| s == "HS384"@
    ||| s == "HS512"@
    ||| s == "ES256"@
    ||| s == "ES384"@
    ||| s == "RS256"@
    ||| s == "RS384"@
    ||| s == "PS256"@
    ||| s == "PS384"@
    ||| s == "PS512"@
    ||| s == "RS512"@
    ||| s == "EdDSA"@
}

/// `jsonwebtoken::Algorithm::from_str`: succeeds exactly on the names its source matches.
#[verifier::external_body]
pub fn algorithm_from_str(name: &str) -> (res: Result<NamedAlgorithm, jsonwebtoken::errors::Error>)
    ensures
        res is Ok <==> is_algorithm_name(name@),
        res matches Ok(algorithm) ==> algorithm.name() == name@,
{
    name.parse::<jsonwebtoken::Algorithm>().map(|algorithm| NamedAlgorithm { algorithm, name: Ghost(name@) })
}

/// The views of a list of strings.
pub open spec fn strings_view(v: Seq<String>) -> Seq<Seq<char>> {
    v.map_values(|s: String| s@)
}

/// Whether a token passes the checks that `jsonwebtoken::decode` makes with an RSA key of this
/// modulus and exponent, the algorithm of this name, and a `Validation` for these audiences
/// and issuers, apart from the checks against the current time (`exp`, and `nbf` where asked
/// for): the header's algorithm, the signature, the presence of `exp`, the audience and the
/// issuer.
pub uninterp spec fn jwt_accepted_apart_from_time(
    token: Seq<char>,
    modulus: Seq<char>,
    exponent: Seq<char>,
    algorithm: Seq<char>,
    audience: Seq<Seq<char>>,
    issuer: Seq<Seq<char>>,
) -> bool;

/// `jsonwebtoken::decode` of a token's claims as JSON, with a `Validation` made by
/// `Validation::new(algorithm)`, `set_audience`, `set_issuer` and `validate_nbf`. A success
/// means that the token passed all of `decode`'s checks, among them those named
/// `jwt_accepted_apart_from_time`. Whether it succeeds also depends on the current time
/// (`exp`, and `nbf` where asked for), so no success is promised, and nothing is stated of the
/// claims returned or of the `validate_nbf` setting.
#[verifier::external_body]
pub fn decode_claims(
    token: &str,
    key: &RsaDecodingKey,
    algorithm: &NamedAlgorithm,
    audience: &Vec<String>,
    issuer: &Vec<String>,
    validate_nbf: bool,
) -> (res: Result<serde_json::Value, jsonwebtoken::errors::Error>)
    ensures
        res is Ok ==> jwt_accepted_apart_from_time(
            token@,
            key.modulus(),
            key.exponent(),
            algorithm.name(),
            strings_view(audience@),
            strings_view(issuer@),
        ),
{
    let mut validation = jsonwebtoken::Validation::new(algorithm.algorithm);
    validation.set_audience(audience);
    validation.set_issuer(issuer);
    validation.validate_nbf = validate_nbf;
    jsonwebtoken::decode::<serde_json::Value>(token, &key.key, &validation).map(|data| data.claims)
}

} // verus!
