use api_shell::forced_error;
use api_shell::index;
use api_shell::metrics::Method;
use api_shell::metrics::PrometheusMetrics;
use api_shell::rocket;
use api_shell::authentication::jwt::AuthError;
use api_shell::authentication::jwt::Outcome;
use api_shell::service::catch;
use api_shell::service::deliver;
use api_shell::service::endpoint_label;
use api_shell::service::guarded;
use api_shell::service::metrics;
use api_shell::service::respond_with;
use api_shell::service::route;
use api_shell::service::Body;
use api_shell::service::Matched;
use api_shell::service::Request;
use api_shell::service::Response;
use api_shell::service::Service;
use api_shell::authentication::jwt::settle;
use api_shell::helpers::response::Status;
use jsonwebtoken::EncodingKey;
use jsonwebtoken::Header;
use serde_json::Value;

fn token(subject: &str) -> String {
    let mut object = serde_json::Map::new();
    object.insert("aud".to_string(), Value::from("me"));
    object.insert("exp".to_string(), Value::from(jsonwebtoken::get_current_timestamp() + 600));
    object.insert("iss".to_string(), Value::from("issuer"));
    object.insert("sub".to_string(), Value::from(subject));
    jsonwebtoken::encode(&Header::default(), &Value::Object(object), &EncodingKey::from_secret(b"secret")).unwrap()
}

fn request(method: Method, path: &str, authorization: Option<String>) -> Request {
    Request { method, path: path.to_string(), authorization }
}

fn get(path: &str) -> Request {
    request(Method::Get, path, None)
}

fn failure_status(response: &Response) -> u16 {
    match &response.body {
        Body::Failure(json) => json.0.status,
        _ => panic!("the response is not the catcher's"),
    }
}

fn text_of(response: &Response) -> String {
    match &response.body {
        Body::Text(text) => text.clone(),
        _ => panic!("the response holds no text"),
    }
}

#[test]
fn forced_error_hands_back_the_code() {
    assert_eq!(forced_error(404).code, 404);
    assert_eq!(forced_error(0).code, 0);
    assert_eq!(forced_error(65535).code, 65535);
}

#[test]
fn index_greets() {
    let mut object = serde_json::Map::new();
    object.insert("aud".to_string(), Value::from("me"));
    object.insert("exp".to_string(), Value::from(1));
    object.insert("iss".to_string(), Value::from("issuer"));
    object.insert("sub".to_string(), Value::from("b@b.com"));
    let jwt = settle(Ok(Value::Object(object))).unwrap();
    let greeting = index(jwt).0;
    assert_eq!(greeting.status, 200);
    assert_eq!(greeting.message, "OK");
    assert_eq!(greeting.data, Some("Hello World!".to_string()));
    assert!(greeting.errors.is_none());
    assert!(greeting.metadata.is_none());
}

#[test]
fn routes_answer_get_and_head_alone() {
    for method in vec![Method::Get, Method::Head] {
        assert_eq!(route(method, "/"), Some(Matched::Index));
        assert_eq!(route(method, "/metrics"), Some(Matched::Metrics));
        assert_eq!(route(method, "/errors/404"), Some(Matched::ForcedError(404)));
        assert_eq!(route(method, "/nowhere"), None);
        assert_eq!(route(method, "/errors/abc"), None);
    }
    for method in vec![
        Method::Put,
        Method::Post,
        Method::Delete,
        Method::Options,
        Method::Trace,
        Method::Connect,
        Method::Patch,
    ] {
        assert_eq!(route(method, "/"), None);
        assert_eq!(route(method, "/metrics"), None);
        assert_eq!(route(method, "/errors/404"), None);
    }
}

#[test]
fn forced_errors_need_a_status_code() {
    assert_eq!(route(Method::Get, "/errors/0"), Some(Matched::ForcedError(0)));
    assert_eq!(route(Method::Get, "/errors/65535"), Some(Matched::ForcedError(65535)));
    assert_eq!(route(Method::Get, "/errors/007"), Some(Matched::ForcedError(7)));
    assert_eq!(route(Method::Get, "/errors/+7"), Some(Matched::ForcedError(7)));
    for path in vec![
        "/errors/",
        "/errors",
        "/errors/65536",
        "/errors/abc",
        "/errors/-1",
        "/errors/4/4",
        "/errors/404/",
        "/error/404",
        "errors/404",
        "/Errors/404",
    ] {
        assert_eq!(route(Method::Get, path), None, "{}", path);
    }
}

#[test]
fn other_paths_have_no_route() {
    for path in vec!["", "//", "/index", "/metrics/", "/metric", "/metricss", " /", "/é"] {
        assert_eq!(route(Method::Get, path), None, "{:?}", path);
    }
}

#[test]
fn routes_are_named_as_mounted() {
    assert_eq!(Matched::Index.endpoint(), "/");
    assert_eq!(Matched::ForcedError(404).endpoint(), "/errors/<code>");
    assert_eq!(Matched::Metrics.endpoint(), "/metrics");
}

#[test]
fn a_bare_status_leaves_or_is_caught() {
    for code in vec![100, 200, 201, 204, 205] {
        let response = respond_with(Status::new(code)).ok().unwrap();
        assert_eq!(response.status.code, code);
        assert!(matches!(response.body, Body::Empty));
    }
    for code in vec![400, 401, 404, 499, 500, 503, 599] {
        assert_eq!(respond_with(Status::new(code)).err().unwrap().code, code);
    }
    for code in vec![0, 99, 101, 199, 206, 299, 300, 302, 399, 600, 65535] {
        assert_eq!(respond_with(Status::new(code)).err().unwrap().code, 500);
    }
}

#[test]
fn the_catcher_answers_under_the_status() {
    let response = catch(Status::new(503));
    assert_eq!(response.status.code, 503);
    match response.body {
        Body::Failure(json) => {
            assert_eq!(json.0.status, 503);
            assert_eq!(json.0.message, "Service Unavailable");
            assert_eq!(json.0.errors.unwrap()[0].code, "HTTP-503");
        }
        _ => panic!("the response is not the catcher's"),
    }
}

#[test]
fn a_fresh_service_has_counted_nothing() {
    let service = rocket();
    assert!(metrics(service.metrics()).contains("http_requests_total 0\n"));
    let service = Service::new();
    assert!(metrics(service.metrics()).contains("http_requests_total 0\n"));
}

#[test]
fn the_metrics_route_renders_the_metrics() {
    let mut state = PrometheusMetrics::default();
    assert!(metrics(&state).contains("http_requests_total 0\n"));
    state.on_request(Method::Get);
    assert!(metrics(&state).contains("http_requests_total 1\n"));
}

#[test]
fn a_scrape_counts_itself() {
    let mut service = rocket();
    let response = service.dispatch(&get("/metrics"));
    assert_eq!(response.status.code, 200);
    let text = text_of(&response);
    assert!(text.contains("http_requests_total 1\n"));
    assert!(text.contains("http_get_requests_total 1\n"));
    assert!(text.contains("http_2xx_responses_total 0\n"));
    let text = text_of(&service.dispatch(&get("/metrics")));
    assert!(text.contains("http_requests_total 2\n"));
    assert!(text.contains("http_2xx_responses_total 1\n"));
    assert!(text.contains(
        "http_requests_duration_seconds_count{endpoint=\"/metrics\",method=\"GET\",status=\"200\"} 1\n"
    ));
}

#[test]
fn the_index_greets_behind_a_valid_token() {
    let mut service = rocket();
    let response = service.dispatch(&request(Method::Get, "/", Some(format!("Bearer {}", token("b@b.com")))));
    assert_eq!(response.status.code, 200);
    match &response.body {
        Body::Greeting(json) => {
            assert_eq!(json.0.status, 200);
            assert_eq!(json.0.data, Some("Hello World!".to_string()));
        }
        _ => panic!("the response is not the greeting"),
    }
    let text = metrics(service.metrics());
    assert!(text.contains("http_requests_total 1\n"));
    assert!(text.contains("http_get_requests_total 1\n"));
    assert!(text.contains("http_2xx_responses_total 1\n"));
    assert!(text.contains("http_4xx_responses_total 0\n"));
    assert!(text.contains(
        "http_requests_duration_seconds_count{endpoint=\"/\",method=\"GET\",status=\"200\"} 1\n"
    ));
}

#[test]
fn the_index_is_closed_without_a_token() {
    let mut service = rocket();
    let response = service.dispatch(&get("/"));
    assert_eq!(response.status.code, 401);
    assert_eq!(failure_status(&response), 401);
    assert!(!matches!(response.body, Body::Greeting(_)));
    let text = metrics(service.metrics());
    assert!(text.contains("http_requests_total 1\n"));
    assert!(text.contains("http_4xx_responses_total 1\n"));
    assert!(text.contains("http_401_responses_total 1\n"));
    assert!(text.contains("http_403_responses_total 0\n"));
    assert!(text.contains("http_2xx_responses_total 0\n"));
}

#[test]
fn the_index_is_closed_to_a_token_that_fails() {
    let mut service = rocket();
    for authorization in vec![
        "junk".to_string(),
        format!("Bearer {}", token("someone else")),
        format!("Bearer {}x", token("b@b.com")),
        String::new(),
    ] {
        let response = service.dispatch(&request(Method::Get, "/", Some(authorization)));
        assert_eq!(response.status.code, 401);
        assert_eq!(failure_status(&response), 401);
    }
    assert!(metrics(service.metrics()).contains("http_401_responses_total 4\n"));
}

#[test]
fn a_failure_tells_nothing_of_the_token() {
    let mut service = rocket();
    let missing = service.dispatch(&get("/"));
    let wrong = service.dispatch(&request(Method::Get, "/", Some(format!("Bearer {}", token("someone else")))));
    for response in vec![missing, wrong] {
        match response.body {
            Body::Failure(json) => {
                let errors = json.0.errors.unwrap();
                assert_eq!(json.0.message, "Unauthorized");
                assert_eq!(errors.len(), 1);
                assert_eq!(errors[0].code, "HTTP-401");
                assert_eq!(errors[0].message, "Unauthorized");
                assert_eq!(errors[0].details, None);
            }
            _ => panic!("the response is not the catcher's"),
        }
    }
}

#[test]
fn a_forced_403_is_counted_as_4xx_and_as_403() {
    let mut service = rocket();
    let response = service.dispatch(&get("/errors/403"));
    assert_eq!(response.status.code, 403);
    let text = metrics(service.metrics());
    assert!(text.contains("http_4xx_responses_total 1\n"));
    assert!(text.contains("http_403_responses_total 1\n"));
    assert!(text.contains("http_401_responses_total 0\n"));
    assert!(text.contains(
        "http_requests_duration_seconds_count{endpoint=\"/errors/<code>\",method=\"GET\",status=\"403\"} 1\n"
    ));
}

#[test]
fn a_forced_status_that_is_an_answer_leaves_bare() {
    let mut service = rocket();
    for code in vec![100, 200, 204, 205] {
        let response = service.dispatch(&get(&format!("/errors/{}", code)));
        assert_eq!(response.status.code, code);
        assert!(matches!(response.body, Body::Empty));
    }
}

#[test]
fn a_forced_status_that_is_no_answer_becomes_500() {
    let mut service = rocket();
    for code in vec![0, 101, 206, 302, 600, 65535] {
        let response = service.dispatch(&get(&format!("/errors/{}", code)));
        assert_eq!(response.status.code, 500);
        assert_eq!(failure_status(&response), 500);
    }
    assert!(metrics(service.metrics()).contains("http_5xx_responses_total 6\n"));
}

#[test]
fn a_request_without_a_route_gets_404() {
    let mut service = rocket();
    for (method, path) in vec![
        (Method::Get, "/nowhere"),
        (Method::Post, "/"),
        (Method::Get, "/errors/abc"),
        (Method::Delete, "/metrics"),
    ] {
        let response = service.dispatch(&request(method, path, None));
        assert_eq!(response.status.code, 404);
        assert_eq!(failure_status(&response), 404);
    }
    let text = metrics(service.metrics());
    assert!(text.contains("http_requests_total 4\n"));
    assert!(text.contains("http_get_requests_total 2\n"));
    assert!(text.contains("http_post_requests_total 1\n"));
    assert!(text.contains("http_delete_requests_total 1\n"));
    assert!(text.contains("http_4xx_responses_total 4\n"));
    assert!(text.contains(
        "http_requests_duration_seconds_count{endpoint=\"unmatched\",method=\"GET\",status=\"404\"} 2\n"
    ));
}

#[test]
fn a_duration_is_filed_under_the_route_or_under_unmatched() {
    assert_eq!(endpoint_label(Some("/")), "/");
    assert_eq!(endpoint_label(Some("/errors/<code>")), "/errors/<code>");
    assert_eq!(endpoint_label(Some("")), "");
    assert_eq!(endpoint_label(None), "unmatched");
}

#[test]
fn the_guarded_route_greets_whom_the_guard_let_through() {
    let mut object = serde_json::Map::new();
    object.insert("aud".to_string(), Value::from("me"));
    object.insert("exp".to_string(), Value::from(1));
    object.insert("iss".to_string(), Value::from("issuer"));
    object.insert("sub".to_string(), Value::from("b@b.com"));
    let jwt = settle(Ok(Value::Object(object))).unwrap();
    let response = guarded(Outcome::Success(jwt));
    assert_eq!(response.status.code, 200);
    match response.body {
        Body::Greeting(json) => assert_eq!(json.0.data, Some("Hello World!".to_string())),
        _ => panic!("the response is not the greeting"),
    }
}

#[test]
fn the_guarded_route_ends_under_the_guard_s_status() {
    for (code, error) in vec![
        (401, AuthError::MissingCredentials),
        (401, AuthError::BadSignature),
        (401, AuthError::Expired),
        (403, AuthError::ClaimMismatch),
    ] {
        let response = guarded(Outcome::Failure((Status::new(code), error)));
        assert_eq!(response.status.code, code);
        assert_eq!(failure_status(&response), code);
    }
}

#[test]
fn a_head_request_gets_the_answer_without_its_body() {
    let mut service = rocket();
    let cases = vec![
        ("/", Some(format!("Bearer {}", token("b@b.com"))), 200),
        ("/", None, 401),
        ("/", Some("junk".to_string()), 401),
        ("/metrics", None, 200),
        ("/errors/403", None, 403),
        ("/errors/204", None, 204),
        ("/errors/302", None, 500),
        ("/nowhere", None, 404),
    ];
    for (path, authorization, status) in cases {
        let response = service.dispatch(&request(Method::Head, path, authorization.clone()));
        assert_eq!(response.status.code, status, "HEAD {}", path);
        assert!(matches!(response.body, Body::Empty), "HEAD {}", path);
        let response = service.dispatch(&request(Method::Get, path, authorization));
        assert_eq!(response.status.code, status, "GET {}", path);
    }
    let text = metrics(service.metrics());
    assert!(text.contains("http_requests_total 16\n"));
    assert!(text.contains("http_head_requests_total 8\n"));
    assert!(text.contains("http_get_requests_total 8\n"));
    assert!(text.contains("http_401_responses_total 4\n"));
    assert!(text.contains("http_403_responses_total 2\n"));
    assert!(text.contains(
        "http_requests_duration_seconds_count{endpoint=\"/\",method=\"HEAD\",status=\"200\"} 1\n"
    ));
    assert!(text.contains(
        "http_requests_duration_seconds_count{endpoint=\"unmatched\",method=\"HEAD\",status=\"404\"} 1\n"
    ));
}

#[test]
fn an_answer_leaves_as_it_is_but_for_head() {
    for method in vec![Method::Get, Method::Post, Method::Delete] {
        let response = deliver(method, catch(Status::new(404)));
        assert_eq!(response.status.code, 404);
        assert_eq!(failure_status(&response), 404);
    }
    let response = deliver(Method::Head, catch(Status::new(404)));
    assert_eq!(response.status.code, 404);
    assert!(matches!(response.body, Body::Empty));
}

#[test]
fn the_index_answers_as_the_guard_decides() {
    let mut service = rocket();
    let cases = vec![
        (Some(format!("Bearer {}", token("b@b.com"))), 200),
        (Some(token("b@b.com")), 200),
        (Some(format!("Bearer {}", token("someone else"))), 401),
        (Some(format!("Bearer {}x", token("b@b.com"))), 401),
        (None, 401),
    ];
    for (authorization, status) in cases {
        let response = service.dispatch(&request(Method::Get, "/", authorization));
        assert_eq!(response.status.code, status);
        assert_eq!(matches!(response.body, Body::Greeting(_)), status == 200);
        assert_eq!(matches!(response.body, Body::Failure(_)), status == 401);
    }
}
