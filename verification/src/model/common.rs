use vstd::prelude::*;
use vstd::string::StringExecFns;

verus! {

/// The taxonomy of failures that the service reports in an error body.
#[derive(Debug, Clone, Copy, PartialEq, Eq, Structural)]
pub enum ErrorType {
    InvalidRequest,
    InvalidResult,
    InvalidInput,
    InstitutionError,
    RateLimitExceeded,
    ApiError,
    ItemError,
    AssetReportError,
    RecaptchaError,
    OauthError,
    PaymentError,
    BankTransferError,
}

/// The body that the service sends whenever it answers with a status outside
/// the success class. No field is guaranteed to be present.
#[derive(Debug, Clone, PartialEq, Eq)]
pub struct ErrorResponse {
    pub display_message: Option<String>,
    pub documentation_url: Option<String>,
    pub error_code: Option<String>,
    pub error_message: Option<String>,
    pub error_type: Option<ErrorType>,
    pub request_id: Option<String>,
    pub status: Option<u32>,
    pub suggested_action: Option<String>,
}

/// The mathematical content of an [`ErrorResponse`]: each text as a sequence
/// of characters.
pub struct ErrorResponseView {
    pub display_message: Option<Seq<char>>,
    pub documentation_url: Option<Seq<char>>,
    pub error_code: Option<Seq<char>>,
    pub error_message: Option<Seq<char>>,
    pub error_type: Option<ErrorType>,
    pub request_id: Option<Seq<char>>,
    pub status: Option<u32>,
    pub suggested_action: Option<Seq<char>>,
}

/// The content of an optional text.
pub open spec fn text_of(value: Option<String>) -> Option<Seq<char>> {
    match value {
        Some(s) => Some(s@),
        None => None,
    }
}

impl View for ErrorResponse {
    type V = ErrorResponseView;

    open spec fn view(&self) -> ErrorResponseView {
        ErrorResponseView {
            display_message: text_of(self.display_message),
            documentation_url: text_of(self.documentation_url),
            error_code: text_of(self.error_code),
            error_message: text_of(self.error_message),
            error_type: self.error_type,
            request_id: text_of(self.request_id),
            status: self.status,
            suggested_action: text_of(self.suggested_action),
        }
    }
}

impl ErrorResponseView {
    /// The error body in which every field is absent.
    pub open spec fn empty() -> ErrorResponseView {
        ErrorResponseView {
            display_message: None,
            documentation_url: None,
            error_code: None,
            error_message: None,
            error_type: None,
            request_id: None,
            status: None,
            suggested_action: None,
        }
    }

    /// The error body that carries a message and nothing else.
    pub open spec fn with_message(message: Seq<char>) -> ErrorResponseView {
        ErrorResponseView { error_message: Some(message), ..ErrorResponseView::empty() }
    }
}

impl Default for ErrorResponse {
    fn default() -> (e: Self)
        ensures
            e@ == ErrorResponseView::empty(),
    {
        ErrorResponse {
            display_message: None,
            documentation_url: None,
            error_code: None,
            error_message: None,
            error_type: None,
            request_id: None,
            status: None,
            suggested_action: None,
        }
    }
}

/// What `format!` with `{:?}` prints for an optional text.
pub uninterp spec fn debug_text(value: Option<Seq<char>>) -> Seq<char>;

/// `format!` with `{:?}` on an `Option<String>`: the result is the `Debug`
/// rendering of the value, which depends on the value alone.
#[verifier::external_body]
fn format_debug(value: &Option<String>) -> (text: String)
    ensures
        text@ == debug_text(text_of(*value)),
{
    format!("{:?}", value)
}

impl ErrorResponse {
    /// The line that describes this error to a reader.
    pub open spec fn spec_to_string(&self) -> Seq<char> {
        "request failed with code "@ + debug_text(text_of(self.error_code)) + ": "@ + debug_text(
            text_of(self.display_message),
        )
    }

    /// An error body that carries `message` as its error message and nothing
    /// else.
    pub fn with_message(message: String) -> (e: Self)
        ensures
            e@ == ErrorResponseView::with_message(message@),
    {
        ErrorResponse {
            display_message: None,
            documentation_url: None,
            error_code: None,
            error_message: Some(message),
            error_type: None,
            request_id: None,
            status: None,
            suggested_action: None,
        }
    }

    /// Describes the error by its code and its display message.
    pub fn to_string(&self) -> (text: String)
        ensures
            text@ == self.spec_to_string(),
    {
        let mut text = String::from_str("request failed with code ");
        let code = format_debug(&self.error_code);
        text.append(code.as_str());
        text.append(": ");
        let shown = format_debug(&self.display_message);
        text.append(shown.as_str());
        text
    }
}

} // verus!
