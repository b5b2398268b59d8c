//! The error taxonomy and the single point at which storage outcomes enter it.

use vstd::prelude::*;

verus! {

/// What a failed operation reports to its caller.
#[derive(Debug)]
pub enum EzyTutorError {
    /// The store failed for any reason other than a missing row.
    DBError(String),
    /// The request layer itself failed.
    ActixError(String),
    /// No visible row matched the operation's key.
    NotFound(String),
    /// The request payload was structurally invalid.
    InvalidInput(String),
}

/// The mathematical value of an [`EzyTutorError`].
pub enum ErrorView {
    DBError(Seq<char>),
    ActixError(Seq<char>),
    NotFound(Seq<char>),
    InvalidInput(Seq<char>),
}

/// The status class under which an error is shown to a client.
#[derive(Debug, Clone, Copy, PartialEq, Eq, Structural)]
pub enum StatusClass {
    NotFound,
    BadRequest,
    InternalError,
}

/// What the storage driver reports when a statement yields no result: either
/// that no row matched, or any other failure with the driver's description.
#[derive(Debug)]
pub enum StorageSignal {
    RowNotFound,
    Failure(String),
}

/// The mathematical value of a [`StorageSignal`].
pub enum SignalView {
    RowNotFound,
    Failure(Seq<char>),
}

impl View for StorageSignal {
    type V = SignalView;

    open spec fn view(&self) -> SignalView {
        match self {
            StorageSignal::RowNotFound => SignalView::RowNotFound,
            StorageSignal::Failure(detail) => SignalView::Failure(detail@),
        }
    }
}

/// The body sent to a client in place of a failed operation's result.
#[derive(Debug)]
pub struct MyErrorResponse {
    pub error_message: String,
}

/// The text shown for every storage or transport failure, whatever its cause.
pub open spec fn generic_message() -> Seq<char> {
    "Internal server error"@
}

/// The text carried by every not-found error that the store raises.
pub open spec fn not_found_message() -> Seq<char> {
    "Requested resource not found"@
}

impl View for EzyTutorError {
    type V = ErrorView;

    open spec fn view(&self) -> ErrorView {
        match self {
            EzyTutorError::DBError(m) => ErrorView::DBError(m@),
            EzyTutorError::ActixError(m) => ErrorView::ActixError(m@),
            EzyTutorError::NotFound(m) => ErrorView::NotFound(m@),
            EzyTutorError::InvalidInput(m) => ErrorView::InvalidInput(m@),
        }
    }
}

impl ErrorView {
    /// The message a client may see: the error's own text where it is safe,
    /// the generic text where the detail must stay on the server.
    pub open spec fn client_message(self) -> Seq<char> {
        match self {
            ErrorView::DBError(_) => generic_message(),
            ErrorView::ActixError(_) => generic_message(),
            ErrorView::NotFound(m) => m,
            ErrorView::InvalidInput(m) => m,
        }
    }

    /// The one status class of each kind of error.
    pub open spec fn status(self) -> StatusClass {
        match self {
            ErrorView::DBError(_) => StatusClass::InternalError,
            ErrorView::ActixError(_) => StatusClass::InternalError,
            ErrorView::NotFound(_) => StatusClass::NotFound,
            ErrorView::InvalidInput(_) => StatusClass::BadRequest,
        }
    }
}

impl StatusClass {
    /// The numeric HTTP status of the class.
    pub open spec fn spec_code(self) -> u16 {
        match self {
            StatusClass::NotFound => 404,
            StatusClass::BadRequest => 400,
            StatusClass::InternalError => 500,
        }
    }

    /// The numeric HTTP status of the class.
    #[verifier::when_used_as_spec(spec_code)]
    pub fn code(self) -> (c: u16)
        ensures
            c == self.spec_code(),
    {
        match self {
            StatusClass::NotFound => 404,
            StatusClass::BadRequest => 400,
            StatusClass::InternalError => 500,
        }
    }
}

/// The error that each storage signal becomes.
pub open spec fn error_of_signal(signal: SignalView) -> ErrorView {
    match signal {
        SignalView::RowNotFound => ErrorView::NotFound(not_found_message()),
        SignalView::Failure(detail) => ErrorView::DBError(detail),
    }
}

/// Of the storage signals only the missing row reaches a client as itself:
/// it is reported as not found under its fixed text, and every other signal
/// as an internal error under the generic text, whatever its detail.
pub proof fn lemma_signal_detail_stays_hidden(detail: Seq<char>)
    ensures
        error_of_signal(SignalView::RowNotFound).status() == StatusClass::NotFound,
        error_of_signal(SignalView::RowNotFound).client_message() == not_found_message(),
        error_of_signal(SignalView::Failure(detail)).status() == StatusClass::InternalError,
        error_of_signal(SignalView::Failure(detail)).client_message() == generic_message(),
        ErrorView::ActixError(detail).status() == StatusClass::InternalError,
        ErrorView::ActixError(detail).client_message() == generic_message(),
{
}

/// `sqlx::Error`, the failure of a statement as the storage driver reports
/// it. Its content is not visible to proofs.
#[verifier::external_type_specification]
#[verifier::external_body]
pub struct ExSqlxError(sqlx::Error);

/// `actix_web::Error`, a failure of the request layer. Its content is not
/// visible to proofs.
#[verifier::external_type_specification]
#[verifier::external_body]
pub struct ExActixError(actix_web::Error);

/// Whether a `sqlx::Error` is its `RowNotFound` variant, the one that the
/// driver returns where a statement that must yield a row yields none. The
/// variant of an error is a matter of the error's value alone.
pub uninterp spec fn is_missing_row(err: sqlx::Error) -> bool;

/// Tells whether a `sqlx::Error` is its `RowNotFound` variant: the body
/// matches on that variant and does nothing else, so that the result is
/// [`is_missing_row`] of the error.
#[verifier::external_body]
fn is_row_not_found(err: &sqlx::Error) -> (missing: bool)
    ensures
        missing == is_missing_row(*err),
{
    matches!(err, sqlx::Error::RowNotFound)
}

impl EzyTutorError {
    /// The one conversion from storage signals to errors: a missing row is
    /// a not-found error, anything else a storage failure.
    pub fn from_signal(signal: StorageSignal) -> (e: EzyTutorError)
        ensures
            e@ == error_of_signal(signal@),
    {
        match signal {
            StorageSignal::RowNotFound => EzyTutorError::NotFound(
                "Requested resource not found".to_owned(),
            ),
            StorageSignal::Failure(detail) => EzyTutorError::DBError(detail),
        }
    }

    /// The message to put in the response for this error.
    pub fn error_response(&self) -> (msg: String)
        ensures
            msg@ == self@.client_message(),
    {
        match self {
            EzyTutorError::DBError(_) => "Internal server error".to_owned(),
            EzyTutorError::ActixError(_) => "Internal server error".to_owned(),
            EzyTutorError::NotFound(m) => m.clone(),
            EzyTutorError::InvalidInput(m) => m.clone(),
        }
    }

    /// The body of the response for this error.
    pub fn response_body(&self) -> (body: MyErrorResponse)
        ensures
            body.error_message@ == self@.client_message(),
    {
        MyErrorResponse { error_message: self.error_response() }
    }

    /// The status class under which this error is reported.
    pub fn status_code(&self) -> (class: StatusClass)
        ensures
            class == self@.status(),
    {
        match self {
            EzyTutorError::DBError(_) => StatusClass::InternalError,
            EzyTutorError::ActixError(_) => StatusClass::InternalError,
            EzyTutorError::NotFound(_) => StatusClass::NotFound,
            EzyTutorError::InvalidInput(_) => StatusClass::BadRequest,
        }
    }
}

/// What `Display` writes for a driver's error is known as a relation only,
/// so this conversion has no specification function; what it returns is
/// stated on `from`.
impl vstd::std_specs::convert::FromSpecImpl<sqlx::Error> for EzyTutorError {
    open spec fn obeys_from_spec() -> bool {
        false
    }

    open spec fn from_spec(err: sqlx::Error) -> EzyTutorError {
        arbitrary()
    }
}

impl From<sqlx::Error> for EzyTutorError {
    /// The error that a failure of the storage driver becomes: the signal
    /// that the driver's error amounts to, put through
    /// [`EzyTutorError::from_signal`]. The driver's missing row is the
    /// missing-row signal; every other error of the driver is a failure
    /// that carries what the error's `Display` writes.
    fn from(err: sqlx::Error) -> (e: EzyTutorError)
        ensures
            is_missing_row(err) ==> e@ == error_of_signal(SignalView::RowNotFound),
            !is_missing_row(err) ==> exists|text: String|
                vstd::string::to_string_from_display_ensures::<sqlx::Error>(&err, text) && e@
                    == #[trigger] error_of_signal(SignalView::Failure(text@)),
    {
        let signal = if is_row_not_found(&err) {
            StorageSignal::RowNotFound
        } else {
            StorageSignal::Failure(err.to_string())
        };
        EzyTutorError::from_signal(signal)
    }
}

/// The same holds of the request layer's error.
impl vstd::std_specs::convert::FromSpecImpl<actix_web::Error> for EzyTutorError {
    open spec fn obeys_from_spec() -> bool {
        false
    }

    open spec fn from_spec(err: actix_web::Error) -> EzyTutorError {
        arbitrary()
    }
}

impl From<actix_web::Error> for EzyTutorError {
    /// The error that a failure of the request layer becomes: a transport
    /// failure that carries what the failure's `Display` writes.
    fn from(err: actix_web::Error) -> (e: EzyTutorError)
        ensures
            exists|text: String| #[trigger]
                vstd::string::to_string_from_display_ensures::<actix_web::Error>(&err, text)
                    && e@ == ErrorView::ActixError(text@),
    {
        EzyTutorError::ActixError(err.to_string())
    }
}

} // verus!
