//! The envelope that every JSON answer of the service is wrapped in.
use vstd::prelude::*;
use chrono::NaiveDateTime;
use uuid::Uuid;

verus! {

#[verifier::external_type_specification]
#[verifier::external_body]
pub struct ExUuid(Uuid);

#[verifier::external_type_specification]
#[verifier::external_body]
pub struct ExNaiveDateTime(NaiveDateTime);

/// `Clone` for `uuid::Uuid`, which is `Copy`: the clone is the identifier itself.
pub assume_specification[ <Uuid as Clone>::clone ](id: &Uuid) -> (copy: Uuid)
    ensures
        copy == *id,
;

/// The reason phrase that `rocket` knows for a status code, if it knows one.
pub uninterp spec fn reason_phrase(code: u16) -> Option<Seq<char>>;

/// `rocket::http::Status::reason` on `rocket::http::Status::new(code)`: the
/// phrase depends on the code alone.
#[verifier::external_body]
fn status_reason(code: u16) -> (reason: Option<&'static str>)
    ensures
        reason matches Some(phrase) ==> reason_phrase(code) == Some(phrase@),
        reason is None ==> reason_phrase(code) is None,
{
    rocket::http::Status::new(code).reason()
}

/// `uuid::Uuid::nil`: the identifier of all zeros. Nothing is said of it.
#[verifier::external_body]
fn nil_trace_id() -> Uuid {
    Uuid::nil()
}

/// `chrono::Local::now` and `chrono::DateTime::naive_local`: the wall clock
/// in the machine's time zone. Nothing is said of the time.
#[verifier::external_body]
fn local_now() -> NaiveDateTime {
    chrono::Local::now().naive_local()
}

/// An HTTP status.
#[derive(Clone, Copy, Debug, PartialEq, Eq, Structural)]
pub struct Status {
    pub code: u16,
}

impl Status {
    /// The reason phrase of the status, or nothing where the code has none.
    pub open spec fn reason_text(self) -> Seq<char> {
        match reason_phrase(self.code) {
            Some(phrase) => phrase,
            None => Seq::empty(),
        }
    }

    /// The status with the given code.
    pub fn new(code: u16) -> (status: Status)
        ensures
            status.code == code,
    {
        Status { code }
    }

    /// The reason phrase of the status, or an empty string where the code has none.
    pub fn message(&self) -> (message: String)
        ensures
            message@ == self.reason_text(),
    {
        match status_reason(self.code) {
            Some(phrase) => String::from_str(phrase),
            None => String::new(),
        }
    }
}

/// Where a page of results stands in the whole.
#[derive(Clone, Copy, Debug, PartialEq, Eq, Structural)]
pub struct Metadata {
    pub page: u32,
    pub limit: u32,
    pub total: u32,
    pub pages: u32,
}

impl Default for Metadata {
    /// The first of no pages.
    fn default() -> (metadata: Metadata)
        ensures
            metadata == (Metadata { page: 0, limit: 0, total: 0, pages: 0 }),
    {
        Metadata { page: 0, limit: 0, total: 0, pages: 0 }
    }
}

/// One error of an answer.
#[derive(Clone, Debug)]
pub struct Error {
    pub trace_id: Uuid,
    pub code: String,
    pub message: String,
    pub details: Option<String>,
    pub help: Option<String>,
}

impl Default for Error {
    /// An error that says nothing, under the identifier of all zeros.
    fn default() -> (error: Error)
        ensures
            error@ == (ErrorView {
                trace_id: error.trace_id,
                code: Seq::empty(),
                message: Seq::empty(),
                details: None,
                help: None,
            }),
    {
        Error { trace_id: nil_trace_id(), code: String::new(), message: String::new(), details: None, help: None }
    }
}

/// An [`Error`] with its texts as sequences of characters.
pub struct ErrorView {
    pub trace_id: Uuid,
    pub code: Seq<char>,
    pub message: Seq<char>,
    pub details: Option<Seq<char>>,
    pub help: Option<Seq<char>>,
}

/// A text that may be missing, as a sequence of characters.
pub open spec fn text_view(text: Option<String>) -> Option<Seq<char>> {
    match text {
        Some(text) => Some(text@),
        None => None,
    }
}

impl View for Error {
    type V = ErrorView;

    open spec fn view(&self) -> ErrorView {
        ErrorView {
            trace_id: self.trace_id,
            code: self.code@,
            message: self.message@,
            details: text_view(self.details),
            help: text_view(self.help),
        }
    }
}

/// The errors of an answer, each as its view.
pub open spec fn errors_view(errors: Option<Vec<Error>>) -> Option<Seq<ErrorView>> {
    match errors {
        Some(errors) => Some(errors@.map_values(|error: Error| error@)),
        None => None,
    }
}

/// The envelope of an answer.
pub struct GenericResponse<T = ()> {
    pub status: u16,
    pub message: String,
    pub errors: Option<Vec<Error>>,
    pub data: Option<T>,
    pub timestamp: NaiveDateTime,
    pub metadata: Option<Metadata>,
}

/// A [`GenericResponse`] with its texts as sequences of characters.
pub struct ResponseView<T> {
    pub status: u16,
    pub message: Seq<char>,
    pub errors: Option<Seq<ErrorView>>,
    pub data: Option<T>,
    pub timestamp: NaiveDateTime,
    pub metadata: Option<Metadata>,
}

impl<T> View for GenericResponse<T> {
    type V = ResponseView<T>;

    open spec fn view(&self) -> ResponseView<T> {
        ResponseView {
            status: self.status,
            message: self.message@,
            errors: errors_view(self.errors),
            data: self.data,
            timestamp: self.timestamp,
            metadata: self.metadata,
        }
    }
}

/// A value that is to leave as JSON.
pub struct Json<T>(pub T);

impl<T> GenericResponse<T> {
    /// An envelope for a status: its code, its reason phrase, and nothing
    /// else but the time of the call.
    pub fn new(status: Status) -> (response: Self)
        ensures
            response@ == (ResponseView::<T> {
                status: status.code,
                message: status.reason_text(),
                errors: None,
                data: None,
                timestamp: response.timestamp,
                metadata: None,
            }),
    {
        GenericResponse {
            status: status.code,
            message: status.message(),
            errors: None,
            data: None,
            timestamp: local_now(),
            metadata: None,
        }
    }

    /// An envelope around the data of a successful answer: status 200 with
    /// its reason phrase, the data, and nothing else but the time of the call.
    pub fn ok(data: T) -> (response: Self)
        ensures
            response@ == (ResponseView::<T> {
                status: 200,
                message: (Status { code: 200 }).reason_text(),
                errors: None,
                data: Some(data),
                timestamp: response.timestamp,
                metadata: None,
            }),
    {
        let status = Status::new(200);
        GenericResponse {
            status: status.code,
            message: status.message(),
            errors: None,
            data: Some(data),
            timestamp: local_now(),
            metadata: None,
        }
    }

    /// The envelope with one more error behind those it has.
    pub fn add_error(self, error: Error) -> (response: GenericResponse<T>)
        ensures
            response@ == (ResponseView::<T> {
                errors: Some(
                    match self@.errors {
                        Some(errors) => errors.push(error@),
                        None => seq![error@],
                    },
                ),
                ..self@
            }),
    {
        let GenericResponse { status, message, errors, data, timestamp, metadata } = self;
        let mut errors = match errors {
            Some(errors) => errors,
            None => Vec::new(),
        };
        let ghost before = errors@.map_values(|error: Error| error@);
        errors.push(error);
        assert(errors@.map_values(|error: Error| error@) =~= before.push(error@));
        assert(self@.errors is None ==> before.push(error@) =~= seq![error@]);
        GenericResponse { status, message, errors: Some(errors), data, timestamp, metadata }
    }

    /// The envelope, marked to leave as JSON.
    pub fn to_json(self) -> (json: Json<GenericResponse<T>>)
        ensures
            json.0 == self,
    {
        Json(self)
    }
}

/// Why an [`ErrorBuilder`] could not build.
#[derive(Clone, Copy, Debug)]
pub enum ErrorBuilderError {
    /// The named field was never set.
    UninitializedField(&'static str),
}

/// Collects the fields of an [`Error`] one by one.
pub struct ErrorBuilder {
    trace_id: Option<Uuid>,
    code: Option<String>,
    message: Option<String>,
    details: Option<Option<String>>,
    help: Option<Option<String>>,
}

/// What an [`ErrorBuilder`] has been given so far.
pub struct ErrorBuilderView {
    pub trace_id: Option<Uuid>,
    pub code: Option<Seq<char>>,
    pub message: Option<Seq<char>>,
    pub details: Option<Option<Seq<char>>>,
    pub help: Option<Option<Seq<char>>>,
}

impl ErrorBuilderView {
    /// The first field, in the order of their declaration, that has not been set.
    pub open spec fn first_missing(self) -> Option<Seq<char>> {
        if self.trace_id is None {
            Some("trace_id"@)
        } else if self.code is None {
            Some("code"@)
        } else if self.message is None {
            Some("message"@)
        } else if self.details is None {
            Some("details"@)
        } else if self.help is None {
            Some("help"@)
        } else {
            None
        }
    }

    /// The error that the fields make, where all are set.
    pub open spec fn built(self) -> ErrorView {
        ErrorView {
            trace_id: self.trace_id->0,
            code: self.code->0,
            message: self.message->0,
            details: self.details->0,
            help: self.help->0,
        }
    }
}

impl View for ErrorBuilder {
    type V = ErrorBuilderView;

    closed spec fn view(&self) -> ErrorBuilderView {
        ErrorBuilderView {
            trace_id: self.trace_id,
            code: text_view(self.code),
            message: text_view(self.message),
            details: match self.details {
                Some(details) => Some(text_view(details)),
                None => None,
            },
            help: match self.help {
                Some(help) => Some(text_view(help)),
                None => None,
            },
        }
    }
}

impl Default for ErrorBuilder {
    /// A builder that has been given nothing.
    fn default() -> (builder: ErrorBuilder)
        ensures
            builder@ == (ErrorBuilderView {
                trace_id: None,
                code: None,
                message: None,
                details: None,
                help: None,
            }),
    {
        ErrorBuilder { trace_id: None, code: None, message: None, details: None, help: None }
    }
}

impl ErrorBuilder {
    /// Sets the identifier under which the error can be traced.
    pub fn trace_id(self, value: Uuid) -> (builder: ErrorBuilder)
        ensures
            builder@ == (ErrorBuilderView { trace_id: Some(value), ..self@ }),
    {
        ErrorBuilder { trace_id: Some(value), ..self }
    }

    /// Sets the code that names the kind of error.
    pub fn code(self, value: String) -> (builder: ErrorBuilder)
        ensures
            builder@ == (ErrorBuilderView { code: Some(value@), ..self@ }),
    {
        ErrorBuilder { code: Some(value), ..self }
    }

    /// Sets the message for whoever reads the answer.
    pub fn message(self, value: String) -> (builder: ErrorBuilder)
        ensures
            builder@ == (ErrorBuilderView { message: Some(value@), ..self@ }),
    {
        ErrorBuilder { message: Some(value), ..self }
    }

    /// Sets the details, or that there are none.
    pub fn details(self, value: Option<String>) -> (builder: ErrorBuilder)
        ensures
            builder@ == (ErrorBuilderView { details: Some(text_view(value)), ..self@ }),
    {
        ErrorBuilder { details: Some(value), ..self }
    }

    /// Sets where to find help, or that there is none.
    pub fn help(self, value: Option<String>) -> (builder: ErrorBuilder)
        ensures
            builder@ == (ErrorBuilderView { help: Some(text_view(value)), ..self@ }),
    {
        ErrorBuilder { help: Some(value), ..self }
    }

    /// The error, where every field has been set; else the name of the first
    /// field that has not.
    pub fn build(self) -> (built: Result<Error, ErrorBuilderError>)
        ensures
            match built {
                Ok(error) => self@.first_missing() is None && error@ == self@.built(),
                Err(ErrorBuilderError::UninitializedField(field)) => self@.first_missing() == Some(field@),
            },
    {
        let ErrorBuilder { trace_id, code, message, details, help } = self;
        let trace_id = match trace_id {
            Some(trace_id) => trace_id,
            None => return Err(ErrorBuilderError::UninitializedField("trace_id")),
        };
        let code = match code {
            Some(code) => code,
            None => return Err(ErrorBuilderError::UninitializedField("code")),
        };
        let message = match message {
            Some(message) => message,
            None => return Err(ErrorBuilderError::UninitializedField("message")),
        };
        let details = match details {
            Some(details) => details,
            None => return Err(ErrorBuilderError::UninitializedField("details")),
        };
        let help = match help {
            Some(help) => help,
            None => return Err(ErrorBuilderError::UninitializedField("help")),
        };
        Ok(Error { trace_id, code, message, details, help })
    }
}

} // verus!
