use api_shell::helpers::response::ErrorBuilder;
use api_shell::helpers::response::ErrorBuilderError;
use api_shell::helpers::response::GenericResponse;
use api_shell::helpers::response::Metadata;
use api_shell::helpers::response::Status;
use uuid::Uuid;

fn missing(built: Result<api_shell::helpers::response::Error, ErrorBuilderError>) -> &'static str {
    match built {
        Ok(_) => panic!("the builder built"),
        Err(ErrorBuilderError::UninitializedField(field)) => field,
    }
}

#[test]
fn status_knows_its_reason() {
    assert_eq!(Status::new(200).message(), "OK");
    assert_eq!(Status::new(404).message(), "Not Found");
    assert_eq!(Status::new(418).message(), "I'm a teapot");
    assert_eq!(Status::new(503).message(), "Service Unavailable");
}

#[test]
fn status_without_reason_has_an_empty_message() {
    assert_eq!(Status::new(499).message(), "");
    assert_eq!(Status::new(0).message(), "");
    assert_eq!(Status::new(65535).message(), "");
}

#[test]
fn new_envelope_holds_the_status_alone() {
    let before = chrono::Local::now().naive_local();
    let envelope: GenericResponse = GenericResponse::new(Status::new(403));
    let after = chrono::Local::now().naive_local();
    assert_eq!(envelope.status, 403);
    assert_eq!(envelope.message, "Forbidden");
    assert!(envelope.errors.is_none());
    assert!(envelope.data.is_none());
    assert!(envelope.metadata.is_none());
    assert!(before <= envelope.timestamp && envelope.timestamp <= after);
}

#[test]
fn ok_envelope_holds_the_data() {
    let envelope = GenericResponse::ok(7u32);
    assert_eq!(envelope.status, 200);
    assert_eq!(envelope.message, "OK");
    assert!(envelope.errors.is_none());
    assert_eq!(envelope.data, Some(7));
    assert!(envelope.metadata.is_none());
}

#[test]
fn add_error_appends() {
    let first = ErrorBuilder::default()
        .trace_id(Uuid::nil())
        .code("A".to_string())
        .message("first".to_string())
        .details(None)
        .help(None)
        .build()
        .unwrap();
    let second = ErrorBuilder::default()
        .trace_id(Uuid::nil())
        .code("B".to_string())
        .message("second".to_string())
        .details(Some("more".to_string()))
        .help(None)
        .build()
        .unwrap();
    let envelope: GenericResponse = GenericResponse::new(Status::new(400));
    let envelope = envelope.add_error(first);
    assert_eq!(envelope.errors.as_ref().unwrap().len(), 1);
    let envelope = envelope.add_error(second);
    let errors = envelope.errors.as_ref().unwrap();
    assert_eq!(errors.len(), 2);
    assert_eq!(errors[0].code, "A");
    assert_eq!(errors[1].code, "B");
    assert_eq!(errors[1].details, Some("more".to_string()));
    assert_eq!(envelope.status, 400);
    assert_eq!(envelope.message, "Bad Request");
}

#[test]
fn to_json_keeps_the_envelope() {
    let json = GenericResponse::ok("x".to_string()).to_json();
    assert_eq!(json.0.status, 200);
    assert_eq!(json.0.data, Some("x".to_string()));
}

#[test]
fn builder_builds_what_it_was_given() {
    let id = Uuid::from_u128(0x1234);
    let error = ErrorBuilder::default()
        .trace_id(id)
        .code("HTTP-500".to_string())
        .message("Internal Server Error".to_string())
        .details(Some("boom".to_string()))
        .help(Some("look here".to_string()))
        .build()
        .unwrap();
    assert_eq!(error.trace_id, id);
    assert_eq!(error.code, "HTTP-500");
    assert_eq!(error.message, "Internal Server Error");
    assert_eq!(error.details, Some("boom".to_string()));
    assert_eq!(error.help, Some("look here".to_string()));
}

#[test]
fn builder_keeps_the_last_value_of_a_field() {
    let error = ErrorBuilder::default()
        .trace_id(Uuid::nil())
        .code("first".to_string())
        .code("second".to_string())
        .message(String::new())
        .details(None)
        .help(None)
        .build()
        .unwrap();
    assert_eq!(error.code, "second");
}

#[test]
fn builder_names_the_first_missing_field() {
    assert_eq!(missing(ErrorBuilder::default().build()), "trace_id");
    assert_eq!(missing(ErrorBuilder::default().trace_id(Uuid::nil()).build()), "code");
    assert_eq!(
        missing(ErrorBuilder::default().trace_id(Uuid::nil()).code(String::new()).build()),
        "message"
    );
    assert_eq!(
        missing(
            ErrorBuilder::default()
                .trace_id(Uuid::nil())
                .code(String::new())
                .message(String::new())
                .build()
        ),
        "details"
    );
    assert_eq!(
        missing(
            ErrorBuilder::default()
                .trace_id(Uuid::nil())
                .code(String::new())
                .message(String::new())
                .details(None)
                .build()
        ),
        "help"
    );
    assert_eq!(missing(ErrorBuilder::default().help(None).details(None).build()), "trace_id");
}

#[test]
fn metadata_defaults_to_zero() {
    let metadata = Metadata::default();
    assert_eq!(metadata, Metadata { page: 0, limit: 0, total: 0, pages: 0 });
}

#[test]
fn an_error_defaults_to_nothing_under_the_nil_identifier() {
    let error = api_shell::helpers::response::Error::default();
    assert_eq!(error.trace_id, Uuid::nil());
    assert_eq!(error.code, "");
    assert_eq!(error.message, "");
    assert_eq!(error.details, None);
    assert_eq!(error.help, None);
}
