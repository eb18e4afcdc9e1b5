//! Results of a flag evaluation: details, reasons and errors.

use vstd::prelude::*;

verus! {

/// The text in an optional string.
pub open spec fn optional_text(text: Option<String>) -> Option<Seq<char>> {
    match text {
        Some(text) => Some(text@),
        None => None,
    }
}

/// Why an evaluation failed.
#[derive(Debug, PartialEq, Eq)]
pub enum EvaluationErrorCode {
    /// The value was resolved before the provider was initialized.
    ProviderNotReady,
    /// The flag could not be found.
    FlagNotFound,
    /// Data such as a payload could not be parsed.
    ParseError,
    /// The type of the value is not the one that was asked for.
    TypeMismatch,
    /// A targeting key is needed and was not given.
    TargetingKeyMissing,
    /// The evaluation context does not suffice.
    InvalidContext,
    /// Any other reason.
    General(String),
}

/// The model of [`EvaluationErrorCode`].
pub enum ErrorCodeView {
    ProviderNotReady,
    FlagNotFound,
    ParseError,
    TypeMismatch,
    TargetingKeyMissing,
    InvalidContext,
    General(Seq<char>),
}

impl View for EvaluationErrorCode {
    type V = ErrorCodeView;

    open spec fn view(&self) -> ErrorCodeView {
        match self {
            EvaluationErrorCode::ProviderNotReady => ErrorCodeView::ProviderNotReady,
            EvaluationErrorCode::FlagNotFound => ErrorCodeView::FlagNotFound,
            EvaluationErrorCode::ParseError => ErrorCodeView::ParseError,
            EvaluationErrorCode::TypeMismatch => ErrorCodeView::TypeMismatch,
            EvaluationErrorCode::TargetingKeyMissing => ErrorCodeView::TargetingKeyMissing,
            EvaluationErrorCode::InvalidContext => ErrorCodeView::InvalidContext,
            EvaluationErrorCode::General(message) => ErrorCodeView::General(message@),
        }
    }
}

/// A failed evaluation.
#[derive(Debug, PartialEq, Eq)]
pub struct EvaluationError {
    pub code: EvaluationErrorCode,
    pub message: Option<String>,
}

/// The model of [`EvaluationError`].
pub struct ErrorView {
    pub code: ErrorCodeView,
    pub message: Option<Seq<char>>,
}

impl View for EvaluationError {
    type V = ErrorView;

    open spec fn view(&self) -> ErrorView {
        ErrorView { code: self.code@, message: optional_text(self.message) }
    }
}

/// The outcome of an evaluation.
pub type EvaluationResult<T> = Result<T, EvaluationError>;

/// An error of type mismatch with its message.
pub open spec fn mismatch(message: Seq<char>) -> ErrorView {
    ErrorView { code: ErrorCodeView::TypeMismatch, message: Some(message) }
}

/// An error of parsing with its message.
pub open spec fn parse_failure(message: Seq<char>) -> ErrorView {
    ErrorView { code: ErrorCodeView::ParseError, message: Some(message) }
}

/// Builds an error from a code and a message.
pub fn evaluation_error(code: EvaluationErrorCode, message: String) -> (error: EvaluationError)
    ensures
        error.code == code,
        error.message == Some(message),
{
    EvaluationError { code, message: Some(message) }
}

/// How a value came about.
#[derive(Debug, PartialEq, Eq)]
pub enum EvaluationReason {
    /// The value is static.
    Static,
    /// The value fell back to a configured default.
    Default,
    /// The value was chosen by a rule or for a specific subject.
    TargetingMatch,
    /// The value was assigned pseudorandomly.
    Split,
    /// The value came from a cache.
    Cached,
    /// The flag is disabled.
    Disabled,
    /// The reason is not known.
    Unknown,
    /// The value is the result of an error.
    Error,
    /// Any other reason.
    Other(String),
}

/// The metadata of a flag, carried as OpenFeature defines it.
#[verifier::external_type_specification]
#[verifier::external_body]
pub struct ExFlagMetadata(open_feature::FlagMetadata);

/// A resolved value, with what is known of how it was resolved.
#[derive(Debug)]
pub struct ResolutionDetails<T> {
    pub value: T,
    pub variant: Option<String>,
    pub reason: Option<EvaluationReason>,
    pub flag_metadata: Option<open_feature::FlagMetadata>,
}

/// Builds the details of a resolved value. They hold no flag metadata.
pub fn resolution<T>(
    value: T,
    variant: Option<String>,
    reason: EvaluationReason,
) -> (details: ResolutionDetails<T>)
    ensures
        details.value == value,
        details.variant == variant,
        details.reason == Some(reason),
        details.flag_metadata is None,
{
    ResolutionDetails { value, variant, reason: Some(reason), flag_metadata: None }
}

/// The details name the variant `variant`, give no known reason and hold no metadata.
pub open spec fn describes<T>(
    details: ResolutionDetails<T>,
    variant: Option<Seq<char>>,
) -> bool {
    &&& optional_text(details.variant) == variant
    &&& details.reason == Some(EvaluationReason::Unknown)
    &&& details.flag_metadata is None
}

} // verus!
