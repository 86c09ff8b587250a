//! The answer to a request that ended in an error status.
use vstd::prelude::*;
use uuid::Uuid;
use crate::helpers::response::ErrorBuilder;
use crate::helpers::response::ErrorView;
use crate::helpers::response::GenericResponse;
use crate::helpers::response::Json;
use crate::helpers::response::ResponseView;
use crate::helpers::response::Status;
use crate::helpers::text::decimal;
use crate::helpers::text::decimal_string;

verus! {

/// `uuid::Uuid::new_v4`: a random identifier. Nothing is said of it.
#[verifier::external_body]
fn fresh_trace_id() -> Uuid {
    Uuid::new_v4()
}

/// An answer under a status of its own.
pub struct Custom<R>(pub Status, pub R);

/// The code of an error that stands for an HTTP status: `HTTP-` and the number.
pub open spec fn error_code(status: Status) -> Seq<char> {
    "HTTP-"@ + decimal(status.code as nat)
}

/// Where to read about an HTTP status.
pub open spec fn help_link(status: Status) -> Seq<char> {
    "https://developer.mozilla.org/en-US/docs/Web/HTTP/Status/"@ + decimal(status.code as nat)
}

/// The error that stands for an HTTP status, under a given trace identifier.
pub open spec fn status_error(status: Status, trace_id: Uuid) -> ErrorView {
    ErrorView {
        trace_id,
        code: error_code(status),
        message: status.reason_text(),
        details: None,
        help: Some(help_link(status)),
    }
}

/// Answers any error status with an envelope under that status. The
/// envelope holds the status, its reason phrase and one error that names the
/// status and links to its description; the error's trace identifier is
/// drawn at random.
pub fn default_catcher(status: Status) -> (answer: Custom<Json<GenericResponse>>)
    ensures
        answer.0 == status,
        answer.1.0@.errors matches Some(errors) && errors.len() == 1,
        answer.1.0@ == (ResponseView::<()> {
            status: status.code,
            message: status.reason_text(),
            errors: Some(seq![status_error(status, answer.1.0@.errors->0[0].trace_id)]),
            data: None,
            timestamp: answer.1.0.timestamp,
            metadata: None,
        }),
{
    let number = decimal_string(status.code);
    let mut code = String::from_str("HTTP-");
    code.append(number.as_str());
    let mut help = String::from_str("https://developer.mozilla.org/en-US/docs/Web/HTTP/Status/");
    help.append(number.as_str());
    let built = ErrorBuilder::default().trace_id(fresh_trace_id()).code(code).message(
        status.message(),
    ).details(None).help(Some(help)).build();
    let response = GenericResponse::new(status);
    match built {
        Ok(error) => {
            let response = response.add_error(error);
            Custom(status, response.to_json())
        },
        // Every field was set, so the builder cannot have failed.
        Err(_) => Custom(status, response.to_json()),
    }
}

} // verus!
