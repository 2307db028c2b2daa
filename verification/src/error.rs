//! API errors: what each error carries, its status code, message and headers, and the reply
//! that a given error verbosity produces.

use vstd::prelude::*;
use vstd::string::*;
use crate::foreign::{
    Base64DecodeError, base64_error_text, base64_decode_error_text, to_str_error_text,
    utf8_error_text,
};
use crate::extractor::jwt::JwtValidationError;

verus! {

/// How much an error reply tells the client.
#[derive(Clone, Copy, Debug, PartialEq, Eq, Structural)]
pub enum ErrorVerbosity {
    /// An empty reply with status 204 for every error.
    NoContent,
    /// Only the error's status code.
    StatusCode,
    /// The message and the status code.
    Message,
    /// The message, the error type with its content cleared, and the status code.
    Type,
    /// The message, the error type with its content, and the status code.
    Full,
}

impl Default for ErrorVerbosity {
    fn default() -> (v: Self)
        ensures
            v == ErrorVerbosity::StatusCode,
    {
        ErrorVerbosity::StatusCode
    }
}

impl ErrorVerbosity {
    /// Error content (reasons, contexts, schemas) is produced at `Full` verbosity only.
    pub open spec fn is_full(self) -> bool {
        self == ErrorVerbosity::Full
    }

    /// Whether errors built at this verbosity carry their content.
    pub fn should_generate_error_context(&self) -> (res: bool)
        ensures
            res == self.is_full(),
    {
        match self {
            ErrorVerbosity::Full => true,
            _ => false,
        }
    }
}

/// The content an error carries at a verbosity: the text at `Full`, nothing otherwise.
pub open spec fn content_for(verbosity: ErrorVerbosity, text: Seq<char>) -> Option<Seq<char>> {
    if verbosity.is_full() {
        Some(text)
    } else {
        None
    }
}

/// The view of an optional string.
pub open spec fn opt_view(s: Option<String>) -> Option<Seq<char>> {
    match s {
        Some(s) => Some(s@),
        None => None,
    }
}

/// `text` starts with `prefix`.
pub open spec fn has_prefix(text: Seq<char>, prefix: Seq<char>) -> bool {
    prefix.len() <= text.len() && text.take(prefix.len() as int) == prefix
}

/// A header of an error reply.
#[derive(Debug)]
pub struct ResponseHeader {
    pub name: String,
    pub value: String,
}

/// The views of a list of reply headers.
pub open spec fn headers_view(headers: Seq<ResponseHeader>) -> Seq<(Seq<char>, Seq<char>)> {
    headers.map_values(|h: ResponseHeader| (h.name@, h.value@))
}

/// The views of an optional list of reply headers.
pub open spec fn opt_headers_view(headers: Option<Vec<ResponseHeader>>) -> Option<Seq<(Seq<char>, Seq<char>)>> {
    match headers {
        Some(h) => Some(headers_view(h@)),
        None => None,
    }
}

/// The single `WWW-Authenticate` header naming an authentication scheme.
pub open spec fn challenge(scheme: Seq<char>) -> Seq<(Seq<char>, Seq<char>)> {
    seq![("WWW-Authenticate"@, scheme)]
}

fn challenge_headers(scheme: &str) -> (headers: Vec<ResponseHeader>)
    ensures
        headers_view(headers@) == challenge(scheme@),
{
    let mut headers = Vec::new();
    headers.push(ResponseHeader { name: String::from_str("WWW-Authenticate"), value: scheme.to_owned() });
    assert(headers_view(headers@) =~= challenge(scheme@));
    headers
}

/// An internal server error.
#[derive(Debug)]
pub struct InternalServerError {
    pub verbosity: ErrorVerbosity,
    pub error: Option<String>,
}

impl InternalServerError {
    /// Builds the error from the text of the failure that caused it (`{err:#}` of the
    /// failure); the text is kept at `Full` verbosity only.
    pub fn from_generic_error(verbosity: ErrorVerbosity, err: String) -> (res: Self)
        ensures
            res.verbosity == verbosity,
            opt_view(res.error) == content_for(verbosity, err@),
    {
        let error = if verbosity.should_generate_error_context() {
            Some(err)
        } else {
            None
        };
        InternalServerError { verbosity, error }
    }

    pub fn status_code(&self) -> (code: u16)
        ensures
            code == 500,
    {
        500
    }
}

impl Default for InternalServerError {
    fn default() -> (res: Self)
        ensures
            res.verbosity == ErrorVerbosity::StatusCode,
            res.error is None,
    {
        InternalServerError { verbosity: ErrorVerbosity::default(), error: None }
    }
}

/// How the query string was refused.
#[derive(Clone, Copy, Debug, PartialEq, Eq, Structural)]
pub enum QueryErrorType {
    /// The query parameters could not be deserialized.
    DeserializeError,
}

/// The query string could not be read as expected.
#[derive(Debug)]
pub struct QueryError {
    pub verbosity: ErrorVerbosity,
    pub error_type: QueryErrorType,
    pub reason: Option<String>,
    pub expected_schema: Option<String>,
}

/// The rejection of a query string: its kind, and the text that the rejection gives.
#[derive(Debug)]
pub enum QueryRejection {
    /// The query string could not be deserialized; the rejection's body text.
    FailedToDeserializeQueryString { body_text: String },
    /// Any other rejection; its `{err:#}` text.
    Other { error_text: String },
}

/// The error that an `InternalServerError` built from `text` at `verbosity` is.
pub open spec fn is_internal_error(e: ApiError, verbosity: ErrorVerbosity, text: Seq<char>) -> bool {
    &&& e matches ApiError::InternalServerError(ise)
    &&& ise.verbosity == verbosity
    &&& opt_view(ise.error) == content_for(verbosity, text)
}

/// The API error that a refused query string maps to: an internal error for rejections
/// other than a failed deserialization, and for a schema that could not be produced at
/// `Full` verbosity; otherwise a query error whose reason and schema are kept at `Full`.
pub open spec fn query_rejection_error(
    res: ApiError,
    verbosity: ErrorVerbosity,
    query_rejection: QueryRejection,
    expected_schema: Result<String, String>,
) -> bool {
    match query_rejection {
        QueryRejection::Other { error_text } => is_internal_error(res, verbosity, error_text@),
        QueryRejection::FailedToDeserializeQueryString { body_text } => {
            if !verbosity.is_full() {
                res matches ApiError::Query(e) && e.verbosity == verbosity
                    && e.error_type == QueryErrorType::DeserializeError
                    && e.reason is None && e.expected_schema is None
            } else {
                match expected_schema {
                    Ok(schema) => res matches ApiError::Query(e) && e.verbosity == verbosity
                        && e.error_type == QueryErrorType::DeserializeError
                        && opt_view(e.reason) == Some(body_text@)
                        && opt_view(e.expected_schema) == Some(schema@),
                    Err(text) => is_internal_error(res, verbosity, text@),
                }
            }
        },
    }
}

impl QueryError {
    /// Maps a refused query string to an API error. `expected_schema` is the YAML text of the
    /// expected type's JSON schema, or the text of the failure to produce it; it is consulted
    /// at `Full` verbosity only.
    pub fn from_query_rejection(
        verbosity: ErrorVerbosity,
        query_rejection: QueryRejection,
        expected_schema: Result<String, String>,
    ) -> (res: ApiError)
        ensures
            query_rejection_error(res, verbosity, query_rejection, expected_schema),
    {
        let body_text = match query_rejection {
            QueryRejection::FailedToDeserializeQueryString { body_text } => body_text,
            QueryRejection::Other { error_text } => {
                return ApiError::InternalServerError(
                    InternalServerError::from_generic_error(verbosity, error_text),
                );
            },
        };
        let (reason, expected_schema) = if verbosity.should_generate_error_context() {
            match expected_schema {
                Ok(schema) => (Some(body_text), Some(schema)),
                Err(text) => {
                    return ApiError::InternalServerError(
                        InternalServerError::from_generic_error(verbosity, text),
                    );
                },
            }
        } else {
            (None, None)
        };
        ApiError::Query(
            QueryError {
                verbosity,
                error_type: QueryErrorType::DeserializeError,
                reason,
                expected_schema,
            },
        )
    }

    pub fn status_code(&self) -> (code: u16)
        ensures
            code == 400,
    {
        400
    }
}

/// How the JSON body was refused.
#[derive(Clone, Copy, Debug, PartialEq, Eq, Structural)]
pub enum JsonBodyErrorType {
    /// The JSON could not be deserialized to the target type.
    DataError,
    /// The body is not valid JSON.
    SyntaxError,
    /// The JSON content type is missing.
    MissingJsonContentType,
}

/// The body could not be read as the expected JSON.
#[derive(Debug)]
pub struct JsonBodyError {
    pub verbosity: ErrorVerbosity,
    pub error_type: JsonBodyErrorType,
    pub reason: Option<String>,
    pub expected_schema: Option<String>,
}

/// The rejection of a JSON body: its kind, and the text that the rejection gives.
#[derive(Debug)]
pub enum JsonRejection {
    JsonDataError { body_text: String },
    JsonSyntaxError { body_text: String },
    MissingJsonContentType { body_text: String },
    /// Any other rejection; its `{err:#}` text.
    Other { error_text: String },
}

/// The error type a JSON rejection maps to, if it maps to one.
pub open spec fn json_rejection_type(r: JsonRejection) -> Option<JsonBodyErrorType> {
    match r {
        JsonRejection::JsonDataError { .. } => Some(JsonBodyErrorType::DataError),
        JsonRejection::JsonSyntaxError { .. } => Some(JsonBodyErrorType::SyntaxError),
        JsonRejection::MissingJsonContentType { .. } => Some(JsonBodyErrorType::MissingJsonContentType),
        JsonRejection::Other { .. } => None,
    }
}

/// The API error that a refused JSON body maps to, as for query strings.
pub open spec fn json_rejection_error(
    res: ApiError,
    verbosity: ErrorVerbosity,
    json_rejection: JsonRejection,
    expected_schema: Result<String, String>,
) -> bool {
    match json_rejection {
        JsonRejection::Other { error_text } => is_internal_error(res, verbosity, error_text@),
        JsonRejection::JsonDataError { body_text }
        | JsonRejection::JsonSyntaxError { body_text }
        | JsonRejection::MissingJsonContentType { body_text } => {
            if !verbosity.is_full() {
                res matches ApiError::JsonBody(e) && e.verbosity == verbosity
                    && Some(e.error_type) == json_rejection_type(json_rejection)
                    && e.reason is None && e.expected_schema is None
            } else {
                match expected_schema {
                    Ok(schema) => res matches ApiError::JsonBody(e) && e.verbosity == verbosity
                        && Some(e.error_type) == json_rejection_type(json_rejection)
                        && opt_view(e.reason) == Some(body_text@)
                        && opt_view(e.expected_schema) == Some(schema@),
                    Err(text) => is_internal_error(res, verbosity, text@),
                }
            }
        },
    }
}

impl JsonBodyError {
    /// Maps a refused JSON body to an API error; `expected_schema` as in
    /// `QueryError::from_query_rejection`.
    pub fn from_json_rejection(
        verbosity: ErrorVerbosity,
        json_rejection: JsonRejection,
        expected_schema: Result<String, String>,
    ) -> (res: ApiError)
        ensures
            json_rejection_error(res, verbosity, json_rejection, expected_schema),
    {
        let (error_type, body_text) = match json_rejection {
            JsonRejection::JsonDataError { body_text } => (JsonBodyErrorType::DataError, body_text),
            JsonRejection::JsonSyntaxError { body_text } => (JsonBodyErrorType::SyntaxError, body_text),
            JsonRejection::MissingJsonContentType { body_text } => (JsonBodyErrorType::MissingJsonContentType, body_text),
            JsonRejection::Other { error_text } => {
                return ApiError::InternalServerError(
                    InternalServerError::from_generic_error(verbosity, error_text),
                );
            },
        };
        let (reason, expected_schema) = if verbosity.should_generate_error_context() {
            match expected_schema {
                Ok(schema) => (Some(body_text), Some(schema)),
                Err(text) => {
                    return ApiError::InternalServerError(
                        InternalServerError::from_generic_error(verbosity, text),
                    );
                },
            }
        } else {
            (None, None)
        };
        ApiError::JsonBody(JsonBodyError { verbosity, error_type, reason, expected_schema })
    }

    pub open spec fn spec_status_code(self) -> u16 {
        match self.error_type {
            JsonBodyErrorType::DataError => 422,
            JsonBodyErrorType::SyntaxError => 400,
            JsonBodyErrorType::MissingJsonContentType => 415,
        }
    }

    pub fn status_code(&self) -> (code: u16)
        ensures
            code == self.spec_status_code(),
    {
        match self.error_type {
            JsonBodyErrorType::DataError => 422,
            JsonBodyErrorType::SyntaxError => 400,
            JsonBodyErrorType::MissingJsonContentType => 415,
        }
    }
}


/// How the path parameters were refused.
#[derive(Clone, Copy, Debug, PartialEq, Eq, Structural)]
pub enum PathErrorType {
    /// The path parameters could not be deserialized.
    DeserializeError,
}

/// The path parameters could not be read as expected.
#[derive(Debug)]
pub struct PathError {
    pub verbosity: ErrorVerbosity,
    pub error_type: PathErrorType,
    pub reason: Option<String>,
}

/// The kind of a path deserialization failure.
#[derive(Clone, Copy, Debug, PartialEq, Eq, Structural)]
pub enum PathDeserializeKind {
    Message,
    InvalidUtf8InPathParam,
    ParseError,
    ParseErrorAtIndex,
    ParseErrorAtKey,
    /// Any other kind (wrong number of parameters, unsupported type, ...).
    Other,
}

/// The rejection of path parameters: its kind, and the texts that the rejection gives.
#[derive(Debug)]
pub enum PathRejection {
    /// The parameters could not be deserialized: the kind, the rejection's body text and
    /// its `{err:#}` text.
    FailedToDeserializePathParams { kind: PathDeserializeKind, body_text: String, error_text: String },
    /// Any other rejection; its `{err:#}` text.
    Other { error_text: String },
}

/// The API error that refused path parameters map to: an internal error unless the
/// parameters failed to deserialize in one of the listed ways; otherwise a path error whose
/// reason is kept at `Full`.
pub open spec fn path_rejection_error(res: ApiError, verbosity: ErrorVerbosity, path_rejection: PathRejection) -> bool {
    match path_rejection {
        PathRejection::Other { error_text } => is_internal_error(res, verbosity, error_text@),
        PathRejection::FailedToDeserializePathParams { kind, body_text, error_text } => {
            if kind == PathDeserializeKind::Other {
                is_internal_error(res, verbosity, error_text@)
            } else {
                res matches ApiError::Path(e) && e.verbosity == verbosity
                    && e.error_type == PathErrorType::DeserializeError
                    && opt_view(e.reason) == content_for(verbosity, body_text@)
            }
        },
    }
}

impl PathError {
    /// Maps refused path parameters to an API error.
    pub fn from_path_rejection(verbosity: ErrorVerbosity, path_rejection: PathRejection) -> (res: ApiError)
        ensures
            path_rejection_error(res, verbosity, path_rejection),
    {
        match path_rejection {
            PathRejection::FailedToDeserializePathParams { kind, body_text, error_text } => {
                match kind {
                    PathDeserializeKind::Other => ApiError::InternalServerError(
                        InternalServerError::from_generic_error(verbosity, error_text),
                    ),
                    _ => {
                        let reason = if verbosity.should_generate_error_context() {
                            Some(body_text)
                        } else {
                            None
                        };
                        ApiError::Path(
                            PathError { verbosity, error_type: PathErrorType::DeserializeError, reason },
                        )
                    },
                }
            },
            PathRejection::Other { error_text } => ApiError::InternalServerError(
                InternalServerError::from_generic_error(verbosity, error_text),
            ),
        }
    }

    pub fn status_code(&self) -> (code: u16)
        ensures
            code == 400,
    {
        400
    }
}

/// The request method is not allowed for the route.
#[derive(Debug)]
pub struct MethodNotAllowedError {
    pub verbosity: ErrorVerbosity,
}

impl MethodNotAllowedError {
    pub fn new(verbosity: ErrorVerbosity) -> (res: Self)
        ensures
            res.verbosity == verbosity,
    {
        MethodNotAllowedError { verbosity }
    }

    pub fn status_code(&self) -> (code: u16)
        ensures
            code == 405,
    {
        405
    }
}

/// No route matches the request.
#[derive(Debug)]
pub struct NotFoundError {
    pub verbosity: ErrorVerbosity,
}

impl NotFoundError {
    pub fn new(verbosity: ErrorVerbosity) -> (res: Self)
        ensures
            res.verbosity == verbosity,
    {
        NotFoundError { verbosity }
    }

    pub fn status_code(&self) -> (code: u16)
        ensures
            code == 404,
    {
        404
    }
}

/// Why an API key was refused.
#[derive(Debug)]
pub enum ApiKeyErrorType {
    /// The API key header is missing.
    Missing,
    /// The API key header holds characters that are not visible ASCII.
    InvalidChars { err: http::header::ToStrError },
    /// The API key is not a valid one.
    Invalid,
}

/// An API key was missing or refused.
#[derive(Debug)]
pub struct ApiKeyError {
    pub verbosity: ErrorVerbosity,
    pub error_type: ApiKeyErrorType,
    pub reason: Option<String>,
}

/// The reason text of an API key error.
pub open spec fn api_key_reason(t: ApiKeyErrorType) -> Seq<char> {
    match t {
        ApiKeyErrorType::Missing => "API key is missing"@,
        ApiKeyErrorType::InvalidChars { .. } =>
            "API key contains invalid characters: "@ + "failed to convert header to a str"@,
        ApiKeyErrorType::Invalid => "API key invalid"@,
    }
}

impl ApiKeyError {
    pub open spec fn built(self, verbosity: ErrorVerbosity, t: ApiKeyErrorType) -> bool {
        &&& self.verbosity == verbosity
        &&& self.error_type == t
        &&& opt_view(self.reason) == content_for(verbosity, api_key_reason(t))
    }

    pub fn new(verbosity: ErrorVerbosity, error_type: ApiKeyErrorType) -> (res: Self)
        ensures
            res.built(verbosity, error_type),
    {
        let reason = if verbosity.should_generate_error_context() {
            Some(Self::reason(&error_type))
        } else {
            None
        };
        ApiKeyError { verbosity, error_type, reason }
    }

    pub fn reason(error_type: &ApiKeyErrorType) -> (text: String)
        ensures
            text@ == api_key_reason(*error_type),
    {
        match error_type {
            ApiKeyErrorType::Missing => String::from_str("API key is missing"),
            ApiKeyErrorType::InvalidChars { err } => {
                let mut text = String::from_str("API key contains invalid characters: ");
                let detail = to_str_error_text(err);
                text.append(detail.as_str());
                text
            },
            ApiKeyErrorType::Invalid => String::from_str("API key invalid"),
        }
    }

    pub open spec fn spec_status_code(self) -> u16 {
        match self.error_type {
            ApiKeyErrorType::Invalid => 403,
            _ => 401,
        }
    }

    pub fn status_code(&self) -> (code: u16)
        ensures
            code == self.spec_status_code(),
    {
        match self.error_type {
            ApiKeyErrorType::Missing => 401,
            ApiKeyErrorType::InvalidChars { .. } => 401,
            ApiKeyErrorType::Invalid => 403,
        }
    }
}

/// Why basic auth was refused.
#[derive(Debug)]
#[allow(inconsistent_fields)]
pub enum BasicAuthErrorType {
    /// The authorization header is missing.
    AuthMissing,
    /// The authorization header holds characters that are not visible ASCII.
    AuthInvalidChars { err: http::header::ToStrError },
    /// The credentials are not valid base64.
    Decode { err: Base64DecodeError },
    /// The decoded credentials are not valid UTF-8.
    AuthInvalidUTF8 { err: std::string::FromUtf8Error },
    /// The authorization header is not of the `Basic` scheme.
    InvalidBasic,
    /// The credentials were not accepted.
    Invalid,
}

/// Whether `text` is the reason of a basic auth error of type `t`. The wording of a UTF-8
/// failure is std's and only its prefix is known.
pub open spec fn basic_auth_reason_fits(t: BasicAuthErrorType, text: Seq<char>) -> bool {
    match t {
        BasicAuthErrorType::AuthMissing => text == "Authorization header is missing"@,
        BasicAuthErrorType::AuthInvalidChars { .. } =>
            text == "Authorization header contains invalid characters: "@ + "failed to convert header to a str"@,
        BasicAuthErrorType::Decode { err } =>
            text == "Authorization header could not be decoded: "@ + base64_error_text(err),
        BasicAuthErrorType::AuthInvalidUTF8 { .. } =>
            has_prefix(text, "Decoded authorization header contains invalid characters: "@),
        BasicAuthErrorType::InvalidBasic => text == "Authorization header is invalid Basic"@,
        BasicAuthErrorType::Invalid => text == "Basic auth is invalid"@,
    }
}

/// Basic auth was missing, malformed or refused.
#[derive(Debug)]
pub struct BasicAuthError {
    pub verbosity: ErrorVerbosity,
    pub error_type: BasicAuthErrorType,
    pub reason: Option<String>,
}

impl BasicAuthError {
    pub open spec fn built(self, verbosity: ErrorVerbosity, t: BasicAuthErrorType) -> bool {
        &&& self.verbosity == verbosity
        &&& self.error_type == t
        &&& (self.reason is Some <==> verbosity.is_full())
        &&& (self.reason matches Some(r) ==> basic_auth_reason_fits(t, r@))
    }

    pub fn new(verbosity: ErrorVerbosity, error_type: BasicAuthErrorType) -> (res: Self)
        ensures
            res.built(verbosity, error_type),
    {
        let reason = if verbosity.should_generate_error_context() {
            Some(Self::reason(&error_type))
        } else {
            None
        };
        BasicAuthError { verbosity, error_type, reason }
    }

    pub fn reason(error_type: &BasicAuthErrorType) -> (text: String)
        ensures
            basic_auth_reason_fits(*error_type, text@),
    {
        match error_type {
            BasicAuthErrorType::AuthMissing => String::from_str("Authorization header is missing"),
            BasicAuthErrorType::AuthInvalidChars { err } => {
                let mut text = String::from_str("Authorization header contains invalid characters: ");
                let detail = to_str_error_text(err);
                text.append(detail.as_str());
                text
            },
            BasicAuthErrorType::Decode { err } => {
                let mut text = String::from_str("Authorization header could not be decoded: ");
                let detail = base64_decode_error_text(err);
                text.append(detail.as_str());
                text
            },
            BasicAuthErrorType::InvalidBasic => String::from_str("Authorization header is invalid Basic"),
            BasicAuthErrorType::AuthInvalidUTF8 { err } => {
                let ghost prefix = "Decoded authorization header contains invalid characters: "@;
                let mut text = String::from_str("Decoded authorization header contains invalid characters: ");
                let detail = utf8_error_text(err);
                text.append(detail.as_str());
                assert(text@.take(prefix.len() as int) =~= prefix);
                text
            },
            BasicAuthErrorType::Invalid => String::from_str("Basic auth is invalid"),
        }
    }

    pub fn status_code(&self) -> (code: u16)
        ensures
            code == 401,
    {
        401
    }
}

/// Why a bearer token was refused.
#[derive(Debug)]
pub enum BearerErrorType {
    /// The authorization header is missing.
    AuthMissing,
    /// The authorization header holds characters that are not visible ASCII.
    AuthInvalidChars { err: http::header::ToStrError },
    /// The authorization header is not of the `Bearer` scheme.
    InvalidBearer,
}

/// The reason text of a bearer error.
pub open spec fn bearer_reason(t: BearerErrorType) -> Seq<char> {
    match t {
        BearerErrorType::AuthMissing => "Authorization header is missing"@,
        BearerErrorType::AuthInvalidChars { .. } =>
            "Authorization header contains invalid characters: "@ + "failed to convert header to a str"@,
        BearerErrorType::InvalidBearer => "Authorization header is invalid Bearer"@,
    }
}

/// A bearer token was missing or malformed.
#[derive(Debug)]
pub struct BearerError {
    pub verbosity: ErrorVerbosity,
    pub error_type: BearerErrorType,
    pub reason: Option<String>,
}

impl BearerError {
    pub open spec fn built(self, verbosity: ErrorVerbosity, t: BearerErrorType) -> bool {
        &&& self.verbosity == verbosity
        &&& self.error_type == t
        &&& opt_view(self.reason) == content_for(verbosity, bearer_reason(t))
    }

    pub fn new(verbosity: ErrorVerbosity, error_type: BearerErrorType) -> (res: Self)
        ensures
            res.built(verbosity, error_type),
    {
        let reason = if verbosity.should_generate_error_context() {
            Some(Self::reason(&error_type))
        } else {
            None
        };
        BearerError { verbosity, error_type, reason }
    }

    pub fn reason(error_type: &BearerErrorType) -> (text: String)
        ensures
            text@ == bearer_reason(*error_type),
    {
        match error_type {
            BearerErrorType::AuthMissing => String::from_str("Authorization header is missing"),
            BearerErrorType::AuthInvalidChars { err } => {
                let mut text = String::from_str("Authorization header contains invalid characters: ");
                let detail = to_str_error_text(err);
                text.append(detail.as_str());
                text
            },
            BearerErrorType::InvalidBearer => String::from_str("Authorization header is invalid Bearer"),
        }
    }

    pub fn status_code(&self) -> (code: u16)
        ensures
            code == 401,
    {
        401
    }
}

/// Why a JWT was refused.
#[derive(Debug)]
pub enum JwtErrorType {
    /// Validation of the token failed.
    Invalid { err: JwtValidationError },
    /// The token has expired; a case of `Invalid` singled out for its own message.
    ExpiredSignature,
    /// The user does not have a valid role.
    Forbidden,
}

/// Whether `text` is the reason of a JWT error of type `t`.
pub open spec fn jwt_reason_fits(t: JwtErrorType, text: Seq<char>) -> bool {
    match t {
        JwtErrorType::Invalid { err } => {
            &&& has_prefix(text, "JWT is invalid: "@)
            &&& err.message_fits(text.skip(("JWT is invalid: "@).len() as int))
        },
        JwtErrorType::ExpiredSignature => text == "JWT has expired"@,
        JwtErrorType::Forbidden => text == "User does not have a valid role"@,
    }
}

/// A JWT was refused.
#[derive(Debug)]
pub struct JwtError {
    pub verbosity: ErrorVerbosity,
    pub error_type: JwtErrorType,
    pub reason: Option<String>,
}

impl JwtError {
    pub open spec fn built(self, verbosity: ErrorVerbosity, t: JwtErrorType) -> bool {
        &&& self.verbosity == verbosity
        &&& self.error_type == t
        &&& (self.reason is Some <==> verbosity.is_full())
        &&& (self.reason matches Some(r) ==> jwt_reason_fits(t, r@))
    }

    pub fn new(verbosity: ErrorVerbosity, error_type: JwtErrorType) -> (res: Self)
        ensures
            res.built(verbosity, error_type),
    {
        let reason = if verbosity.should_generate_error_context() {
            Some(Self::reason(&error_type))
        } else {
            None
        };
        JwtError { verbosity, error_type, reason }
    }

    pub fn reason(error_type: &JwtErrorType) -> (text: String)
        ensures
            jwt_reason_fits(*error_type, text@),
    {
        match error_type {
            JwtErrorType::Invalid { err } => {
                let ghost prefix = "JWT is invalid: "@;
                let mut text = String::from_str("JWT is invalid: ");
                let detail = err.message();
                text.append(detail.as_str());
                assert(text@.take(prefix.len() as int) =~= prefix);
                assert(text@.skip(prefix.len() as int) =~= detail@);
                text
            },
            JwtErrorType::ExpiredSignature => String::from_str("JWT has expired"),
            JwtErrorType::Forbidden => String::from_str("User does not have a valid role"),
        }
    }

    pub open spec fn spec_status_code(self) -> u16 {
        match self.error_type {
            JwtErrorType::Forbidden => 403,
            _ => 401,
        }
    }

    pub fn status_code(&self) -> (code: u16)
        ensures
            code == self.spec_status_code(),
            (self.error_type is Invalid || self.error_type is ExpiredSignature) ==> code == 401,
            self.error_type is Forbidden ==> code == 403,
    {
        match self.error_type {
            JwtErrorType::Invalid { .. } | JwtErrorType::ExpiredSignature => 401,
            JwtErrorType::Forbidden => 403,
        }
    }
}

/// Validation of extracted data failed.
#[derive(Debug)]
pub struct ValidationError {
    pub verbosity: ErrorVerbosity,
    pub reason: Option<String>,
}

impl ValidationError {
    /// Builds the error from the text of the validation errors, kept at `Full` verbosity only.
    pub fn from_validation_errors(verbosity: ErrorVerbosity, validation_errors: String) -> (res: Self)
        ensures
            res.verbosity == verbosity,
            opt_view(res.reason) == content_for(verbosity, validation_errors@),
    {
        let reason = if verbosity.should_generate_error_context() {
            Some(validation_errors)
        } else {
            None
        };
        ValidationError { verbosity, reason }
    }

    pub fn status_code(&self) -> (code: u16)
        ensures
            code == 422,
    {
        422
    }
}

/// An API error.
#[derive(Debug)]
pub enum ApiError {
    /// An internal server error occurred.
    InternalServerError(InternalServerError),
    /// The query parameters are not as expected.
    Query(QueryError),
    /// The body is not as expected.
    JsonBody(JsonBodyError),
    /// The path parameters are not as expected.
    Path(PathError),
    /// The method is not allowed.
    MethodNotAllowed(MethodNotAllowedError),
    /// The requested resource was not found.
    NotFound(NotFoundError),
    /// The API key is not as expected.
    ApiKey(ApiKeyError),
    /// The basic auth is not as expected.
    BasicAuth(BasicAuthError),
    /// The bearer token is not as expected.
    Bearer(BearerError),
    /// The JWT is not as expected.
    Jwt(JwtError),
    /// Validation of the extracted data failed.
    Validation(ValidationError),
}

impl Default for ApiError {
    fn default() -> (res: Self)
        ensures
            res matches ApiError::InternalServerError(e) && e.verbosity == ErrorVerbosity::StatusCode
                && e.error is None,
    {
        ApiError::InternalServerError(InternalServerError::default())
    }
}

impl ApiError {
    pub open spec fn spec_verbosity(self) -> ErrorVerbosity {
        match self {
            ApiError::InternalServerError(e) => e.verbosity,
            ApiError::Query(e) => e.verbosity,
            ApiError::JsonBody(e) => e.verbosity,
            ApiError::Path(e) => e.verbosity,
            ApiError::MethodNotAllowed(e) => e.verbosity,
            ApiError::NotFound(e) => e.verbosity,
            ApiError::ApiKey(e) => e.verbosity,
            ApiError::BasicAuth(e) => e.verbosity,
            ApiError::Bearer(e) => e.verbosity,
            ApiError::Jwt(e) => e.verbosity,
            ApiError::Validation(e) => e.verbosity,
        }
    }

    /// The verbosity the error was built with.
    pub fn verbosity(&self) -> (v: ErrorVerbosity)
        ensures
            v == self.spec_verbosity(),
            self.wrapped_verbosity(v),
    {
        match self {
            ApiError::InternalServerError(e) => e.verbosity,
            ApiError::Query(e) => e.verbosity,
            ApiError::JsonBody(e) => e.verbosity,
            ApiError::Path(e) => e.verbosity,
            ApiError::MethodNotAllowed(e) => e.verbosity,
            ApiError::NotFound(e) => e.verbosity,
            ApiError::ApiKey(e) => e.verbosity,
            ApiError::BasicAuth(e) => e.verbosity,
            ApiError::Bearer(e) => e.verbosity,
            ApiError::Jwt(e) => e.verbosity,
            ApiError::Validation(e) => e.verbosity,
        }
    }

    pub open spec fn spec_message(self) -> Seq<char> {
        match self {
            ApiError::InternalServerError(_) => "An internal server error has occurred"@,
            ApiError::Query(_) => "Failed to parse query parameters"@,
            ApiError::JsonBody(_) => "Failed to parse request body"@,
            ApiError::Path(_) => "Failed to parse path parameters"@,
            ApiError::MethodNotAllowed(_) => "Method not allowed"@,
            ApiError::NotFound(_) => "The requested resource was not found"@,
            ApiError::ApiKey(_) => "API key error"@,
            ApiError::BasicAuth(_) => "Basic auth error"@,
            ApiError::Bearer(_) => "Bearer auth error"@,
            ApiError::Jwt(_) => "JWT error"@,
            ApiError::Validation(_) => "Validation error"@,
        }
    }

    /// The message of the error's kind.
    pub fn message(&self) -> (m: &'static str)
        ensures
            m@ == self.spec_message(),
    {
        match self {
            ApiError::InternalServerError(_) => "An internal server error has occurred",
            ApiError::Query(_) => "Failed to parse query parameters",
            ApiError::JsonBody(_) => "Failed to parse request body",
            ApiError::Path(_) => "Failed to parse path parameters",
            ApiError::MethodNotAllowed(_) => "Method not allowed",
            ApiError::NotFound(_) => "The requested resource was not found",
            ApiError::ApiKey(_) => "API key error",
            ApiError::BasicAuth(_) => "Basic auth error",
            ApiError::Bearer(_) => "Bearer auth error",
            ApiError::Jwt(_) => "JWT error",
            ApiError::Validation(_) => "Validation error",
        }
    }

    pub open spec fn spec_status_code(self) -> u16 {
        match self {
            ApiError::InternalServerError(_) => 500,
            ApiError::Query(_) => 400,
            ApiError::JsonBody(e) => e.spec_status_code(),
            ApiError::Path(_) => 400,
            ApiError::MethodNotAllowed(_) => 405,
            ApiError::NotFound(_) => 404,
            ApiError::ApiKey(e) => e.spec_status_code(),
            ApiError::BasicAuth(_) => 401,
            ApiError::Bearer(_) => 401,
            ApiError::Jwt(e) => e.spec_status_code(),
            ApiError::Validation(_) => 422,
        }
    }

    /// The HTTP status code of the error.
    pub fn status_code(&self) -> (code: u16)
        ensures
            code == self.spec_status_code(),
            self.status_by_kind(code),
    {
        match self {
            ApiError::InternalServerError(e) => e.status_code(),
            ApiError::Query(e) => e.status_code(),
            ApiError::JsonBody(e) => e.status_code(),
            ApiError::Path(e) => e.status_code(),
            ApiError::MethodNotAllowed(e) => e.status_code(),
            ApiError::NotFound(e) => e.status_code(),
            ApiError::ApiKey(e) => e.status_code(),
            ApiError::BasicAuth(e) => e.status_code(),
            ApiError::Bearer(e) => e.status_code(),
            ApiError::Jwt(e) => e.status_code(),
            ApiError::Validation(e) => e.status_code(),
        }
    }

    pub open spec fn spec_headers(self) -> Option<Seq<(Seq<char>, Seq<char>)>> {
        match self {
            ApiError::BasicAuth(_) => Some(challenge("Basic"@)),
            ApiError::Bearer(_) | ApiError::Jwt(_) => Some(challenge("Bearer"@)),
            _ => None,
        }
    }

    /// Extra reply headers: the authentication challenge of auth errors.
    pub fn headers(&self) -> (headers: Option<Vec<ResponseHeader>>)
        ensures
            opt_headers_view(headers) == self.spec_headers(),
    {
        match self {
            ApiError::BasicAuth(_) => Some(challenge_headers("Basic")),
            ApiError::Bearer(_) | ApiError::Jwt(_) => Some(challenge_headers("Bearer")),
            _ => None,
        }
    }

    /// Builds an internal server error from the text of a failure.
    pub fn from_generic_error(verbosity: ErrorVerbosity, err: String) -> (res: Self)
        ensures
            is_internal_error(res, verbosity, err@),
    {
        ApiError::InternalServerError(InternalServerError::from_generic_error(verbosity, err))
    }

    /// The reply that the error is sent as.
    pub fn into_reply(self) -> (reply: ErrorReply<ApiErrorResponse>)
        ensures
            reply_fits(reply, self.spec_verbosity(), self.spec_status_code(), self.spec_headers(),
                if self.spec_verbosity() == ErrorVerbosity::NoContent { ""@ } else { self.spec_message() }),
            reply.body matches ErrorBody::Detailed(d) ==> d.error == self && d.message@ == self.spec_message(),
    {
        ApiErrorResponse::from_error(self).into_reply()
    }
}

impl ApiError {
    /// `v` is the verbosity of the error that this one wraps, whatever its kind.
    pub open spec fn wrapped_verbosity(self, v: ErrorVerbosity) -> bool {
        &&& self matches ApiError::InternalServerError(e) ==> v == e.verbosity
        &&& self matches ApiError::Query(e) ==> v == e.verbosity
        &&& self matches ApiError::JsonBody(e) ==> v == e.verbosity
        &&& self matches ApiError::Path(e) ==> v == e.verbosity
        &&& self matches ApiError::MethodNotAllowed(e) ==> v == e.verbosity
        &&& self matches ApiError::NotFound(e) ==> v == e.verbosity
        &&& self matches ApiError::ApiKey(e) ==> v == e.verbosity
        &&& self matches ApiError::BasicAuth(e) ==> v == e.verbosity
        &&& self matches ApiError::Bearer(e) ==> v == e.verbosity
        &&& self matches ApiError::Jwt(e) ==> v == e.verbosity
        &&& self matches ApiError::Validation(e) ==> v == e.verbosity
    }

    /// `code` is the HTTP status of an error of this kind: 500 for an internal error; 400
    /// for refused query strings and path parameters; 422, 400 or 415 for a body that is
    /// not the expected data, not JSON, or not sent as JSON; 405 for a method that is not
    /// allowed; 404 for no route; 401 for a missing or unreadable API key and 403 for one
    /// that is not accepted; 401 for basic auth and bearer errors; 401 for an invalid or
    /// expired JWT and 403 for a missing role; 422 for failed validation.
    pub open spec fn status_by_kind(self, code: u16) -> bool {
        &&& self is InternalServerError ==> code == 500
        &&& self is Query ==> code == 400
        &&& self matches ApiError::JsonBody(e) ==> code == (match e.error_type {
            JsonBodyErrorType::DataError => 422u16,
            JsonBodyErrorType::SyntaxError => 400u16,
            JsonBodyErrorType::MissingJsonContentType => 415u16,
        })
        &&& self is Path ==> code == 400
        &&& self is MethodNotAllowed ==> code == 405
        &&& self is NotFound ==> code == 404
        &&& self matches ApiError::ApiKey(e) ==> code == (if e.error_type is Invalid { 403u16 } else { 401u16 })
        &&& self is BasicAuth ==> code == 401
        &&& self is Bearer ==> code == 401
        &&& self matches ApiError::Jwt(e) ==> code == (if e.error_type is Forbidden { 403u16 } else { 401u16 })
        &&& self is Validation ==> code == 422
    }

    /// The error carries no content: no reason, schema or error text.
    pub open spec fn content_cleared(self) -> bool {
        match self {
            ApiError::InternalServerError(e) => e.error is None,
            ApiError::Query(e) => e.reason is None && e.expected_schema is None,
            ApiError::JsonBody(e) => e.reason is None && e.expected_schema is None,
            ApiError::Path(e) => e.reason is None,
            ApiError::MethodNotAllowed(_) => true,
            ApiError::NotFound(_) => true,
            ApiError::ApiKey(e) => e.reason is None,
            ApiError::BasicAuth(e) => e.reason is None,
            ApiError::Bearer(e) => e.reason is None,
            ApiError::Jwt(e) => e.reason is None,
            ApiError::Validation(e) => e.reason is None,
        }
    }

    /// The error carries content only if it was built at `Full` verbosity.
    pub open spec fn content_only_at_full(self) -> bool {
        !self.spec_verbosity().is_full() ==> self.content_cleared()
    }
}

/// Below `Full` verbosity, errors are built with their content cleared: the internal
/// errors and the errors of refused query strings, bodies and path parameters.
pub proof fn law_rejection_errors_clear_content(
    e: ApiError,
    verbosity: ErrorVerbosity,
    text: Seq<char>,
    query_rejection: QueryRejection,
    json_rejection: JsonRejection,
    path_rejection: PathRejection,
    expected_schema: Result<String, String>,
)
    ensures
        is_internal_error(e, verbosity, text) ==> e.spec_verbosity() == verbosity && e.content_only_at_full(),
        query_rejection_error(e, verbosity, query_rejection, expected_schema)
            ==> e.spec_verbosity() == verbosity && e.content_only_at_full(),
        json_rejection_error(e, verbosity, json_rejection, expected_schema)
            ==> e.spec_verbosity() == verbosity && e.content_only_at_full(),
        path_rejection_error(e, verbosity, path_rejection) ==> e.spec_verbosity() == verbosity && e.content_only_at_full(),
{
}

/// Below `Full` verbosity, the errors of refused credentials carry no reason.
pub proof fn law_auth_errors_clear_content(e: ApiError)
    ensures
        (e matches ApiError::ApiKey(k) && k.built(k.verbosity, k.error_type)) ==> e.content_only_at_full(),
        (e matches ApiError::BasicAuth(b) && b.built(b.verbosity, b.error_type)) ==> e.content_only_at_full(),
        (e matches ApiError::Bearer(b) && b.built(b.verbosity, b.error_type)) ==> e.content_only_at_full(),
        (e matches ApiError::Jwt(j) && j.built(j.verbosity, j.error_type)) ==> e.content_only_at_full(),
{
}

/// At `NoContent` verbosity every error is answered with 204 and nothing else; at any other
/// verbosity with the error's own status code and headers.
pub proof fn law_reply_status<D>(
    reply: ErrorReply<D>,
    verbosity: ErrorVerbosity,
    status: u16,
    headers: Option<Seq<(Seq<char>, Seq<char>)>>,
    message: Seq<char>,
)
    requires
        reply_fits(reply, verbosity, status, headers, message),
    ensures
        verbosity == ErrorVerbosity::NoContent ==> reply.status == 204 && reply.headers@.len() == 0
            && reply.body is Empty,
        verbosity != ErrorVerbosity::NoContent ==> reply.status == status,
        verbosity != ErrorVerbosity::NoContent && headers is None ==> reply.headers@.len() == 0,
{
    if verbosity != ErrorVerbosity::NoContent && headers is None {
        assert(headers_view(reply.headers@).len() == reply.headers@.len());
    }
}

/// At `Type` verbosity an error that carries content only at `Full` is answered with its
/// message and the error itself, its content cleared; at `Full` with all it carries.
pub proof fn law_detailed_reply_content(e: ApiError, reply: ErrorReply<ApiErrorResponse>)
    requires
        e.content_only_at_full(),
        reply_fits(reply, e.spec_verbosity(), e.spec_status_code(), e.spec_headers(), e.spec_message()),
        reply.body matches ErrorBody::Detailed(d) ==> d.error == e && d.message@ == e.spec_message(),
    ensures
        e.spec_verbosity() == ErrorVerbosity::Type ==> (reply.body matches ErrorBody::Detailed(d)
            && d.error.content_cleared() && d.message@ == e.spec_message()),
        e.spec_verbosity() == ErrorVerbosity::Full ==> (reply.body matches ErrorBody::Detailed(d) && d.error == e),
        e.spec_verbosity() == ErrorVerbosity::Message ==> (reply.body matches ErrorBody::Message(m)
            && m.message@ == e.spec_message()),
{
}

/// A JWT error is answered 401 when the token is invalid or has expired, and 403 when the
/// user lacks a valid role.
pub proof fn law_jwt_error_status(e: JwtError)
    ensures
        (e.error_type is Invalid || e.error_type is ExpiredSignature) ==> e.spec_status_code() == 401,
        e.error_type is Forbidden ==> e.spec_status_code() == 403,
{
}

/// Every API error is answered with the status of its kind, the status of the error it
/// wraps.
pub proof fn law_api_error_status(e: ApiError)
    ensures
        e.status_by_kind(e.spec_status_code()),
{
}

/// Every API error is answered at the verbosity that the error it wraps was built with.
pub proof fn law_api_error_verbosity(e: ApiError)
    ensures
        e.wrapped_verbosity(e.spec_verbosity()),
{
}

/// An error built at `NoContent` verbosity is answered with 204, no headers and no body,
/// whatever its kind.
pub proof fn law_no_content_reply(e: ApiError, reply: ErrorReply<ApiErrorResponse>)
    requires
        e.wrapped_verbosity(ErrorVerbosity::NoContent),
        reply_fits(reply, e.spec_verbosity(), e.spec_status_code(), e.spec_headers(), ""@),
    ensures
        reply.status == 204,
        reply.headers@.len() == 0,
        reply.body is Empty,
{
    law_api_error_verbosity(e);
}

/// The message of an error, alone.
#[derive(Debug)]
pub struct ErrorMessage {
    pub message: &'static str,
}

/// What an error reply carries in its body.
#[derive(Debug)]
pub enum ErrorBody<D> {
    /// No body.
    Empty,
    /// The message alone.
    Message(ErrorMessage),
    /// The error with its type and content, and the message.
    Detailed(D),
}

/// A reply to an error: status code, headers and body.
#[derive(Debug)]
pub struct ErrorReply<D> {
    pub status: u16,
    pub headers: Vec<ResponseHeader>,
    pub body: ErrorBody<D>,
}

/// The reply of an error at a verbosity: 204 and nothing else at `None`; otherwise the
/// error's status code and headers, with no body at `StatusCode`, the message at `Message`,
/// and the detailed error at `Type` and `Full`.
pub open spec fn reply_fits<D>(
    reply: ErrorReply<D>,
    verbosity: ErrorVerbosity,
    status: u16,
    headers: Option<Seq<(Seq<char>, Seq<char>)>>,
    message: Seq<char>,
) -> bool {
    match verbosity {
        ErrorVerbosity::NoContent => reply.status == 204 && reply.headers@.len() == 0 && reply.body is Empty,
        _ => {
            &&& reply.status == status
            &&& headers_view(reply.headers@) == (match headers {
                Some(h) => h,
                None => Seq::empty(),
            })
            &&& match verbosity {
                ErrorVerbosity::StatusCode => reply.body is Empty,
                ErrorVerbosity::Message => reply.body matches ErrorBody::Message(m) && m.message@ == message,
                _ => reply.body is Detailed,
            }
        },
    }
}

fn headers_or_empty(headers: Option<Vec<ResponseHeader>>) -> (res: Vec<ResponseHeader>)
    ensures
        headers_view(res@) == (match opt_headers_view(headers) {
            Some(h) => h,
            None => Seq::empty(),
        }),
{
    match headers {
        Some(h) => h,
        None => {
            let v = Vec::new();
            assert(headers_view(v@) =~= Seq::empty());
            v
        },
    }
}

/// An API error with the message it is sent with.
#[derive(Debug)]
pub struct ApiErrorResponse {
    pub error: ApiError,
    pub message: &'static str,
}

impl ApiErrorResponse {
    /// Pairs the error with its message; the message is empty at `None` verbosity.
    pub fn from_error(error: ApiError) -> (res: Self)
        ensures
            res.error == error,
            res.message@ == (if error.spec_verbosity() == ErrorVerbosity::NoContent { ""@ } else { error.spec_message() }),
    {
        let message = match error.verbosity() {
            ErrorVerbosity::NoContent => "",
            _ => error.message(),
        };
        ApiErrorResponse { error, message }
    }

    /// The reply that the error is sent as.
    pub fn into_reply(self) -> (reply: ErrorReply<ApiErrorResponse>)
        ensures
            reply_fits(reply, self.error.spec_verbosity(), self.error.spec_status_code(),
                self.error.spec_headers(), self.message@),
            reply.body matches ErrorBody::Detailed(d) ==> d == self,
    {
        let verbosity = self.error.verbosity();
        let status = self.error.status_code();
        let headers = headers_or_empty(self.error.headers());
        match verbosity {
            ErrorVerbosity::NoContent => ErrorReply { status: 204, headers: Vec::new(), body: ErrorBody::Empty },
            ErrorVerbosity::StatusCode => ErrorReply { status, headers, body: ErrorBody::Empty },
            ErrorVerbosity::Message => ErrorReply {
                status,
                headers,
                body: ErrorBody::Message(ErrorMessage { message: self.message }),
            },
            ErrorVerbosity::Type | ErrorVerbosity::Full => ErrorReply {
                status,
                headers,
                body: ErrorBody::Detailed(self),
            },
        }
    }
}


/// An error type that a route defines for its own resource errors.
pub trait ResourceErrorProvider {
    /// What the error tells about itself at `Full` verbosity.
    type Context;

    spec fn spec_headers(&self) -> Option<Seq<(Seq<char>, Seq<char>)>>;

    spec fn spec_status_code(&self) -> u16;

    spec fn spec_message(&self) -> Seq<char>;

    /// Whether `context` is this error's context.
    spec fn context_fits(&self, context: Self::Context) -> bool;

    /// Headers to send with the error.
    fn headers(&self) -> (headers: Option<Vec<ResponseHeader>>)
        ensures
            opt_headers_view(headers) == self.spec_headers(),
    ;

    /// The status code to send with the error.
    fn status_code(&self) -> (code: u16)
        ensures
            code == self.spec_status_code(),
    ;

    /// The message to send with the error.
    fn message(&self) -> (message: &'static str)
        ensures
            message@ == self.spec_message(),
    ;

    /// The error's context.
    fn context(&self) -> (context: Self::Context)
        ensures
            self.context_fits(context),
    ;
}

/// An error of a route's own resource, with its context at `Full` verbosity.
#[derive(Debug)]
pub struct ResourceError<ET, C> {
    pub verbosity: ErrorVerbosity,
    pub error_type: ET,
    pub context: Option<C>,
}

impl<ET: ResourceErrorProvider<Context = C>, C> ResourceError<ET, C> {
    pub fn new(verbosity: ErrorVerbosity, error_type: ET) -> (res: Self)
        ensures
            res.verbosity == verbosity,
            res.error_type == error_type,
            res.context is Some <==> verbosity.is_full(),
            res.context matches Some(c) ==> error_type.context_fits(c),
    {
        let context = if verbosity.should_generate_error_context() {
            Some(error_type.context())
        } else {
            None
        };
        ResourceError { verbosity, error_type, context }
    }

    /// The reply that the error is sent as.
    pub fn into_reply(self) -> (reply: ErrorReply<ResourceErrorResponse<ET, C>>)
        ensures
            reply_fits(reply, self.verbosity, self.error_type.spec_status_code(),
                self.error_type.spec_headers(), self.error_type.spec_message()),
            reply.body matches ErrorBody::Detailed(d) ==> d.error == self,
    {
        ResourceErrorResponse::from_error(self).into_reply()
    }
}

/// A resource error with the message it is sent with.
#[derive(Debug)]
pub struct ResourceErrorResponse<ET, C> {
    pub error: ResourceError<ET, C>,
    pub message: &'static str,
}

impl<ET: ResourceErrorProvider<Context = C>, C> ResourceErrorResponse<ET, C> {
    /// Pairs the error with its type's message.
    pub fn from_error(error: ResourceError<ET, C>) -> (res: Self)
        ensures
            res.error == error,
            res.message@ == error.error_type.spec_message(),
    {
        let message = error.error_type.message();
        ResourceErrorResponse { error, message }
    }

    /// The reply that the error is sent as.
    pub fn into_reply(self) -> (reply: ErrorReply<ResourceErrorResponse<ET, C>>)
        ensures
            reply_fits(reply, self.error.verbosity, self.error.error_type.spec_status_code(),
                self.error.error_type.spec_headers(), self.message@),
            reply.body matches ErrorBody::Detailed(d) ==> d == self,
    {
        let verbosity = self.error.verbosity;
        let status = self.error.error_type.status_code();
        let headers = headers_or_empty(self.error.error_type.headers());
        match verbosity {
            ErrorVerbosity::NoContent => ErrorReply { status: 204, headers: Vec::new(), body: ErrorBody::Empty },
            ErrorVerbosity::StatusCode => ErrorReply { status, headers, body: ErrorBody::Empty },
            ErrorVerbosity::Message => ErrorReply {
                status,
                headers,
                body: ErrorBody::Message(ErrorMessage { message: self.message }),
            },
            ErrorVerbosity::Type | ErrorVerbosity::Full => ErrorReply {
                status,
                headers,
                body: ErrorBody::Detailed(self),
            },
        }
    }
}

} // verus!
