//! A small HTTP service: a route behind a bearer-token guard, a route that
//! answers with any status asked for, a catcher that wraps every failure in
//! one envelope, and metrics on all of it.
use vstd::prelude::*;
use crate::authentication::jwt::Jwt;
use crate::helpers::response::GenericResponse;
use crate::helpers::response::Json;
use crate::helpers::response::ResponseView;
use crate::helpers::response::Status;
use crate::service::Service;

pub mod authentication;
pub mod errors;
pub mod helpers;
pub mod metrics;
pub mod service;

verus! {

/// The route behind `GET /errors/<code>`: the status that the path asks for.
pub fn forced_error(code: u16) -> (status: Status)
    ensures
        status.code == code,
{
    Status::new(code)
}

/// The route behind `GET /`, for a request whose token passed the guard: a
/// greeting in an envelope.
pub fn index(_jwt: Jwt) -> (greeting: Json<GenericResponse<String>>)
    ensures
        greeting.0@.data matches Some(text) && text@ == "Hello World!"@,
        greeting.0@ == (ResponseView::<String> {
            status: 200,
            message: (Status { code: 200 }).reason_text(),
            errors: None,
            data: greeting.0@.data,
            timestamp: greeting.0.timestamp,
            metadata: None,
        }),
{
    GenericResponse::ok(String::from_str("Hello World!")).to_json()
}

/// The service, ready for its first request: fresh metrics around the index
/// route, the forced errors and the metrics route, with the catcher behind.
///
/// This is the library's own service, which takes requests as values through
/// [`Service::dispatch`]; it is no instance of a web framework and listens
/// on nothing.
pub fn rocket() -> (service: Service)
    ensures
        service@ == crate::metrics::MetricsView::zero(),
{
    Service::new()
}

} // verus!
