//! The errors of the signer and what each one becomes at the HTTP boundary.

use crate::encoding::{hex_encode, hex_string};
use crate::text::concat2;
use vstd::prelude::*;
use vstd::string::*;

verus! {

/// Status of a response to a request that carried no known token.
pub const STATUS_UNAUTHORIZED: u16 = 401;

/// Status of a response to a request that named an unknown key.
pub const STATUS_NOT_FOUND: u16 = 404;

/// Status of a response to a request that the backend does not support.
pub const STATUS_BAD_REQUEST: u16 = 400;

/// Status of a response after a failure in talking to Dirk.
pub const STATUS_BAD_GATEWAY: u16 = 502;

/// Status of a response after any other failure.
pub const STATUS_INTERNAL_SERVER_ERROR: u16 = 500;

/// Why the signer could not serve a request.
#[derive(Clone, Debug, PartialEq, Eq)]
pub enum SignerModuleError {
    /// The request carried no token, or one that no module is registered with.
    Unauthorized,
    /// The consensus key, given by its bytes, is not known to the backend.
    UnknownConsensusSigner(Vec<u8>),
    /// The proxy key, given by its bytes, is unknown or belongs to another module.
    UnknownProxySigner(Vec<u8>),
    /// A call to Dirk failed, was refused, or returned something malformed.
    DirkCommunicationError(String),
    /// The operation has no meaning for the Dirk backend.
    DirkNotSupported,
    /// Local signing, the file system or the proxy store failed.
    Internal(String),
}

/// A `SignerModuleError` by the bytes and characters it carries.
pub enum ErrorView {
    Unauthorized,
    UnknownConsensusSigner(Seq<u8>),
    UnknownProxySigner(Seq<u8>),
    DirkCommunicationError(Seq<char>),
    DirkNotSupported,
    Internal(Seq<char>),
}

impl View for SignerModuleError {
    type V = ErrorView;

    open spec fn view(&self) -> ErrorView {
        match *self {
            SignerModuleError::Unauthorized => ErrorView::Unauthorized,
            SignerModuleError::UnknownConsensusSigner(key) => ErrorView::UnknownConsensusSigner(
                key@,
            ),
            SignerModuleError::UnknownProxySigner(key) => ErrorView::UnknownProxySigner(key@),
            SignerModuleError::DirkCommunicationError(detail) => ErrorView::DirkCommunicationError(
                detail@,
            ),
            SignerModuleError::DirkNotSupported => ErrorView::DirkNotSupported,
            SignerModuleError::Internal(detail) => ErrorView::Internal(detail@),
        }
    }
}

impl ErrorView {
    /// The error's full text.
    pub open spec fn message(self) -> Seq<char> {
        match self {
            ErrorView::Unauthorized => "unauthorized"@,
            ErrorView::UnknownConsensusSigner(key) => "unknown consensus signer: 0x"@ + hex_string(
                key,
            ),
            ErrorView::UnknownProxySigner(key) => "unknown proxy signer: 0x"@ + hex_string(key),
            ErrorView::DirkCommunicationError(detail) => "Dirk communication error: "@ + detail,
            ErrorView::DirkNotSupported => "Dirk signer does not support this operation"@,
            ErrorView::Internal(detail) => "internal error: "@ + detail,
        }
    }

    /// The HTTP status that answers a request failing with this error.
    pub open spec fn status(self) -> u16 {
        match self {
            ErrorView::Unauthorized => STATUS_UNAUTHORIZED,
            ErrorView::UnknownConsensusSigner(_) => STATUS_NOT_FOUND,
            ErrorView::UnknownProxySigner(_) => STATUS_NOT_FOUND,
            ErrorView::DirkCommunicationError(_) => STATUS_BAD_GATEWAY,
            ErrorView::DirkNotSupported => STATUS_BAD_REQUEST,
            ErrorView::Internal(_) => STATUS_INTERNAL_SERVER_ERROR,
        }
    }

    /// The body of that answer. Failures behind the service show a fixed
    /// text, so that nothing of the inside leaks; the others show the error's
    /// own text.
    pub open spec fn body(self) -> Seq<char> {
        match self {
            ErrorView::DirkCommunicationError(_) => "Dirk communication error"@,
            ErrorView::Internal(_) => "internal error"@,
            _ => self.message(),
        }
    }
}

impl SignerModuleError {
    /// The error's full text, keys in hexadecimal behind `0x`.
    pub fn to_string(&self) -> (text: String)
        ensures
            text@ == self@.message(),
    {
        match self {
            SignerModuleError::Unauthorized => "unauthorized".to_owned(),
            SignerModuleError::UnknownConsensusSigner(key) => {
                let hex = hex_encode(key.as_slice());
                concat2("unknown consensus signer: 0x", hex.as_str())
            },
            SignerModuleError::UnknownProxySigner(key) => {
                let hex = hex_encode(key.as_slice());
                concat2("unknown proxy signer: 0x", hex.as_str())
            },
            SignerModuleError::DirkCommunicationError(detail) => concat2(
                "Dirk communication error: ",
                detail.as_str(),
            ),
            SignerModuleError::DirkNotSupported => {
                "Dirk signer does not support this operation".to_owned()
            },
            SignerModuleError::Internal(detail) => concat2("internal error: ", detail.as_str()),
        }
    }

    /// The HTTP status that answers a request failing with this error.
    pub fn status_code(&self) -> (code: u16)
        ensures
            code == self@.status(),
    {
        match self {
            SignerModuleError::Unauthorized => STATUS_UNAUTHORIZED,
            SignerModuleError::UnknownConsensusSigner(_) => STATUS_NOT_FOUND,
            SignerModuleError::UnknownProxySigner(_) => STATUS_NOT_FOUND,
            SignerModuleError::DirkCommunicationError(_) => STATUS_BAD_GATEWAY,
            SignerModuleError::DirkNotSupported => STATUS_BAD_REQUEST,
            SignerModuleError::Internal(_) => STATUS_INTERNAL_SERVER_ERROR,
        }
    }

    /// Status and body of the HTTP answer for this error.
    pub fn into_response(self) -> (response: (u16, String))
        ensures
            response.0 == self@.status(),
            response.1@ == self@.body(),
    {
        let code = self.status_code();
        let body = match &self {
            SignerModuleError::DirkCommunicationError(_) => "Dirk communication error".to_owned(),
            SignerModuleError::Internal(_) => "internal error".to_owned(),
            _ => self.to_string(),
        };
        (code, body)
    }
}

/// The statuses of the refusals: 401 without a known token, 404 for an
/// unknown key, 400 for what Dirk does not support, 502 for a failure
/// towards Dirk, and 500 for any other.
pub proof fn lemma_statuses(error: ErrorView)
    ensures
        error.status() == (match error {
            ErrorView::Unauthorized => 401u16,
            ErrorView::UnknownConsensusSigner(_) => 404u16,
            ErrorView::UnknownProxySigner(_) => 404u16,
            ErrorView::DirkNotSupported => 400u16,
            ErrorView::DirkCommunicationError(_) => 502u16,
            ErrorView::Internal(_) => 500u16,
        }),
{
}

} // verus!
