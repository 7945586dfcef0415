//! Request authorization: the layer that wraps the update service, and the
//! decision whether a request's token admits it.

use vstd::prelude::*;
use std::sync::Arc;
use hyper::header::HeaderValue;
use vstd::utf8::{encode_utf8, is_ascii_chars, is_ascii_chars_encode_utf8};

verus! {

/// The header value type of `hyper` (the `http` crate's `HeaderValue`).
#[verifier::external_type_specification]
#[verifier::external_body]
pub struct ExHeaderValue(HeaderValue);

/// The bytes that a header value holds.
pub uninterp spec fn header_value_bytes(value: HeaderValue) -> Seq<u8>;

/// A byte that `HeaderValue::to_str` accepts: visible ASCII or a tab.
pub open spec fn is_visible_ascii(b: u8) -> bool {
    (32 <= b && b < 127) || b == 9
}

/// The bytes of a header value read as text, one character per byte.
pub open spec fn bytes_as_text(bytes: Seq<u8>) -> Seq<char> {
    Seq::new(bytes.len(), |i: int| bytes[i] as char)
}

/// Calls `HeaderValue::to_str` and copies the text out. As the `http` source
/// shows, it succeeds exactly when every byte of the value is visible ASCII
/// or a tab, and then yields those bytes as characters.
#[verifier::external_body]
fn header_value_text(value: &HeaderValue) -> (text: Option<String>)
    ensures
        text is Some <==> (forall|i: int|
            0 <= i < header_value_bytes(*value).len() ==> is_visible_ascii(
                #[trigger] header_value_bytes(*value)[i],
            )),
        text matches Some(t) ==> t@ == bytes_as_text(header_value_bytes(*value)),
{
    match value.to_str() {
        Ok(s) => Some(s.to_string()),
        Err(_) => None,
    }
}

/// Why a request is refused.
#[derive(Clone, Copy, Debug, PartialEq, Eq, Structural)]
pub enum AuthError {
    /// The request carries no `token` header.
    MissingClientToken,
    /// The `token` header holds bytes other than visible ASCII and tabs.
    UnreadableClientToken,
    /// The wrapped service failed to prepare its response.
    ServiceFailed,
    /// The request's token differs from the configured one.
    InvalidClientToken,
}

/// The text a refusal is reported with.
pub open spec fn auth_error_message(error: AuthError) -> Seq<char> {
    match error {
        AuthError::MissingClientToken => "Missing client token."@,
        AuthError::UnreadableClientToken => "failed to convert header to a str"@,
        AuthError::ServiceFailed => "Error preparing service response."@,
        AuthError::InvalidClientToken => "Invalid client token."@,
    }
}

impl AuthError {
    /// The text this refusal is reported with.
    pub fn message(&self) -> (text: String)
        ensures
            text@ == auth_error_message(*self),
    {
        match self {
            AuthError::MissingClientToken => String::from_str("Missing client token."),
            AuthError::UnreadableClientToken => String::from_str(
                "failed to convert header to a str",
            ),
            AuthError::ServiceFailed => String::from_str("Error preparing service response."),
            AuthError::InvalidClientToken => String::from_str("Invalid client token."),
        }
    }
}

/// The bytes of the `token` header, if the request has one.
pub open spec fn header_bytes(header: Option<&HeaderValue>) -> Option<Seq<u8>> {
    match header {
        Some(v) => Some(header_value_bytes(*v)),
        None => None,
    }
}

/// Every byte is visible ASCII or a tab.
pub open spec fn all_visible_ascii(bytes: Seq<u8>) -> bool {
    forall|i: int| 0 <= i < bytes.len() ==> is_visible_ascii(#[trigger] bytes[i])
}

/// The token a request presents, read from its `token` header bytes.
pub open spec fn spec_client_token(header: Option<Seq<u8>>) -> Result<Seq<char>, AuthError> {
    match header {
        None => Err(AuthError::MissingClientToken),
        Some(bytes) => if all_visible_ascii(bytes) {
            Ok(bytes_as_text(bytes))
        } else {
            Err(AuthError::UnreadableClientToken)
        },
    }
}

/// The token the server compares against: the configured one, or the empty
/// token when the configuration could not be read.
pub open spec fn expected_token(server_token: Option<Seq<char>>) -> Seq<char> {
    match server_token {
        Some(t) => t,
        None => Seq::empty(),
    }
}

/// The first step for a request, once the configured token has been looked
/// up: the pair (expected token, presented token) when the header is present
/// and readable, and then the wrapped service is called; otherwise the answer.
pub open spec fn spec_begin(server_token: Option<Seq<char>>, header: Option<Seq<u8>>) -> Result<
    (Seq<char>, Seq<char>),
    AuthError,
> {
    match spec_client_token(header) {
        Err(e) => Err(e),
        Ok(client) => Ok((expected_token(server_token), client)),
    }
}

/// The answer once the wrapped service has answered: its failure first, then
/// the comparison of the tokens.
pub open spec fn spec_finish(expected: Seq<char>, presented: Seq<char>, service_ok: bool) -> Result<
    (),
    AuthError,
> {
    if !service_ok {
        Err(AuthError::ServiceFailed)
    } else if expected == presented {
        Ok(())
    } else {
        Err(AuthError::InvalidClientToken)
    }
}

/// The answer to a request, given the configured token (`None` when the
/// configuration could not be read), the request's `token` header bytes, and
/// whether the wrapped service, once called, prepared its response.
pub open spec fn spec_authorize(
    server_token: Option<Seq<char>>,
    header: Option<Seq<u8>>,
    service_ok: bool,
) -> Result<(), AuthError> {
    match spec_begin(server_token, header) {
        Err(e) => Err(e),
        Ok((expected, presented)) => spec_finish(expected, presented, service_ok),
    }
}

/// The view of a looked-up token.
pub open spec fn token_view(token: Option<String>) -> Option<Seq<char>> {
    match token {
        Some(t) => Some(t@),
        None => None,
    }
}

/// Reads the token a request presents from its `token` header.
pub fn client_token(header: Option<&HeaderValue>) -> (token: Result<String, AuthError>)
    ensures
        match (
            token,
            spec_client_token(
                match header {
                    Some(v) => Some(header_value_bytes(*v)),
                    None => None,
                },
            ),
        ) {
            (Ok(t), Ok(s)) => t@ == s,
            (Err(e), Err(f)) => e == f,
            _ => false,
        },
{
    match header {
        None => Err(AuthError::MissingClientToken),
        Some(value) => match header_value_text(value) {
            Some(text) => Ok(text),
            None => Err(AuthError::UnreadableClientToken),
        },
    }
}

/// A request whose header was read and which now waits for the wrapped
/// service to answer before its token is compared.
pub struct PendingAuthorization {
    pub expected: String,
    pub presented: String,
}

/// Starts authorizing a request, once the configured token has been looked
/// up (`None` when the configuration could not be read). `Ok` means: call the
/// wrapped service, then `finish`. `Err` is the answer, and the service is
/// not called.
pub fn begin(server_token: Option<String>, header: Option<&HeaderValue>) -> (pending: Result<
    PendingAuthorization,
    AuthError,
>)
    ensures
        match (
            pending,
            spec_begin(
                match server_token {
                    Some(t) => Some(t@),
                    None => None,
                },
                match header {
                    Some(v) => Some(header_value_bytes(*v)),
                    None => None,
                },
            ),
        ) {
            (Ok(p), Ok((e, c))) => p.expected@ == e && p.presented@ == c,
            (Err(e), Err(f)) => e == f,
            _ => false,
        },
{
    let presented = client_token(header);
    match presented {
        Err(e) => Err(e),
        Ok(presented) => {
            let expected = match server_token {
                Some(t) => t,
                None => String::new(),
            };
            Ok(PendingAuthorization { expected, presented })
        },
    }
}

impl PendingAuthorization {
    /// The answer once the wrapped service has answered (`service_ok` tells
    /// whether it prepared its response).
    pub fn finish(self, service_ok: bool) -> (answer: Result<(), AuthError>)
        ensures
            answer == spec_finish(self.expected@, self.presented@, service_ok),
    {
        if !service_ok {
            Err(AuthError::ServiceFailed)
        } else if self.expected == self.presented {
            Ok(())
        } else {
            Err(AuthError::InvalidClientToken)
        }
    }
}


/// A request is admitted only when its `token` header is present and
/// readable, its text is the expected token, and the wrapped service
/// prepared its response.
pub proof fn lemma_admitted_only_with_expected_token(
    server_token: Option<Seq<char>>,
    header: Option<Seq<u8>>,
    service_ok: bool,
)
    ensures
        spec_authorize(server_token, header, service_ok) is Ok ==> {
            &&& header matches Some(bytes)
            &&& all_visible_ascii(bytes)
            &&& bytes_as_text(bytes) == expected_token(server_token)
            &&& service_ok
        },
{
}

/// A request without a `token` header is refused as such, whatever the
/// configuration and the service do, and the service is not called.
pub proof fn lemma_missing_token_refused(server_token: Option<Seq<char>>, service_ok: bool)
    ensures
        spec_begin(server_token, None) == Err::<(Seq<char>, Seq<char>), _>(
            AuthError::MissingClientToken,
        ),
        spec_authorize(server_token, None, service_ok) == Err::<(), _>(
            AuthError::MissingClientToken,
        ),
{
}

/// A readable token that differs from the expected one is refused as
/// invalid once the service has answered; the service is still called for
/// it, and its failure is reported first.
pub proof fn lemma_wrong_token_refused(
    server_token: Option<Seq<char>>,
    bytes: Seq<u8>,
    service_ok: bool,
)
    requires
        all_visible_ascii(bytes),
        bytes_as_text(bytes) != expected_token(server_token),
    ensures
        spec_begin(server_token, Some(bytes)) is Ok,
        spec_authorize(server_token, Some(bytes), service_ok) == (if service_ok {
            Err::<(), _>(AuthError::InvalidClientToken)
        } else {
            Err::<(), _>(AuthError::ServiceFailed)
        }),
{
}

/// When the configuration cannot be read, the expected token is empty: only
/// a request with an empty `token` header is admitted.
pub proof fn lemma_unreadable_configuration_expects_empty_token(header: Option<Seq<u8>>)
    ensures
        spec_authorize(None, header, true) is Ok <==> header == Some(Seq::<u8>::empty()),
{
    if let Some(bytes) = header {
        if bytes.len() == 0 {
            assert(bytes =~= Seq::<u8>::empty());
            assert(bytes_as_text(bytes) =~= Seq::<char>::empty());
        } else if all_visible_ascii(bytes) {
            assert(bytes_as_text(bytes).len() != 0);
        }
    }
}

/// A text of visible ASCII characters and tabs.
pub open spec fn is_visible_ascii_text(text: Seq<char>) -> bool {
    forall|i: int|
        0 <= i < text.len() ==> #[trigger] text[i] == '\t' || (' ' <= text[i] && text[i] <= '~')
}

/// What the client sends is what the server reads: a token of visible ASCII
/// characters and tabs can travel as metadata (its UTF-8 bytes are what
/// `insert_token` stores under `token`), the server reads exactly that token
/// back from those bytes, and a request carrying the configured token is
/// admitted once the service has answered.
pub proof fn lemma_sent_token_read_back(token: Seq<char>)
    requires
        is_visible_ascii_text(token),
    ensures
        crate::client::authorization::all_value_bytes(encode_utf8(token)),
        spec_client_token(Some(encode_utf8(token))) == Ok::<_, AuthError>(token),
        spec_authorize(Some(token), Some(encode_utf8(token)), true) == Ok::<(), AuthError>(()),
{
    assert(is_ascii_chars(token));
    is_ascii_chars_encode_utf8(token);
    let bytes = encode_utf8(token);
    assert forall|i: int| 0 <= i < bytes.len() implies is_visible_ascii(#[trigger] bytes[i])
        && crate::client::authorization::is_value_byte(bytes[i]) by {
        assert(token[i] as u8 == bytes[i]);
    }
    assert forall|i: int| 0 <= i < token.len() implies #[trigger] bytes_as_text(bytes)[i]
        == token[i] by {
        let c = token[i];
        assert(c as u8 == bytes[i]);
        assert((c as u8) as char == c);
    }
    assert(bytes_as_text(bytes) =~= token);
}

/// A `token` header holding a control byte other than a tab, or any byte
/// outside ASCII, is refused as unreadable, before the service is called.
pub proof fn lemma_non_visible_byte_unreadable(server_token: Option<Seq<char>>, bytes: Seq<u8>, i: int)
    requires
        0 <= i < bytes.len(),
        (bytes[i] < 32 && bytes[i] != 9) || bytes[i] >= 127,
    ensures
        spec_client_token(Some(bytes)) == Err::<Seq<char>, _>(AuthError::UnreadableClientToken),
        spec_begin(server_token, Some(bytes)) == Err::<(Seq<char>, Seq<char>), _>(
            AuthError::UnreadableClientToken,
        ),
{
    assert(!is_visible_ascii(bytes[i]));
}

/// The four refusals are reported with four different texts, each naming
/// its own cause.
pub proof fn lemma_refusal_messages_differ(first: AuthError, second: AuthError)
    ensures
        first != second ==> auth_error_message(first) != auth_error_message(second),
        auth_error_message(AuthError::MissingClientToken) == "Missing client token."@,
        auth_error_message(AuthError::UnreadableClientToken) == "failed to convert header to a str"@,
        auth_error_message(AuthError::ServiceFailed) == "Error preparing service response."@,
        auth_error_message(AuthError::InvalidClientToken) == "Invalid client token."@,
{
    reveal_strlit("Missing client token.");
    reveal_strlit("failed to convert header to a str");
    reveal_strlit("Error preparing service response.");
    reveal_strlit("Invalid client token.");
    if first != second {
        assert(auth_error_message(first)[0] != auth_error_message(second)[0]);
    }
}

/// Calls `Arc::clone`: as std documents, the clone points to the same
/// allocation, so it holds the same value.
#[verifier::external_body]
fn share<T>(value: &Arc<T>) -> (shared: Arc<T>)
    ensures
        shared == *value,
{
    Arc::clone(value)
}

/// `Authorization` middleware: the wrapped service, and the path of the
/// configuration file whose token every request must present.
#[derive(Clone)]
pub struct Authorization<S> {
    pub config: Arc<String>,
    pub inner: S,
}

/// `Authorization` middleware layer.
#[derive(Clone)]
pub struct AuthorizationLayer {
    pub config: Arc<String>,
}

impl AuthorizationLayer {
    /// Build a new `Authorization` layer that reads the token from the
    /// configuration file at `path`.
    pub fn new(path: &str) -> (layer: Self)
        ensures
            layer.config@ == path@,
    {
        let raw = String::from_str(path);
        AuthorizationLayer { config: Arc::new(raw) }
    }

    /// Wrap `service` in the `Authorization` middleware, which shares this
    /// layer's configuration path.
    pub fn layer<S>(&self, service: S) -> (wrapped: Authorization<S>)
        ensures
            wrapped.config == self.config,
            wrapped.inner == service,
    {
        Authorization { config: share(&self.config), inner: service }
    }
}

} // verus!
