use httpbench::request_generator::{classify_response, RequestError, SimpleJsonGetRequest};

#[test]
fn ok_status_with_body_is_success() {
    assert_eq!(classify_response(200, 12), Ok(()));
    assert_eq!(classify_response(200, 1), Ok(()));
}

#[test]
fn ok_status_with_empty_body_is_a_status_error() {
    assert_eq!(classify_response(200, 0), Err(RequestError::StatusError));
}

#[test]
fn non_ok_status_is_a_status_error() {
    assert_eq!(classify_response(404, 5), Err(RequestError::StatusError));
    assert_eq!(classify_response(500, 5), Err(RequestError::StatusError));
    assert_eq!(classify_response(201, 5), Err(RequestError::StatusError));
}

#[test]
fn standard_methods_are_accepted() {
    for m in ["GET", "POST", "PUT", "DELETE", "PATCH"] {
        let r = SimpleJsonGetRequest::new(None, "http://localhost:1234/".to_string(), m);
        assert!(r.is_ok());
        assert_eq!(r.unwrap().method, m);
    }
}

#[test]
fn extension_method_tokens_are_accepted() {
    let r = SimpleJsonGetRequest::new(None, "http://localhost:1234/".to_string(), "PURGE");
    assert!(r.is_ok());
}

#[test]
fn invalid_method_is_rejected() {
    let r = SimpleJsonGetRequest::new(None, "http://localhost:1234/".to_string(), "NOT A METHOD");
    assert!(r.is_err());
    let r = SimpleJsonGetRequest::new(None, "http://localhost:1234/".to_string(), "");
    assert!(r.is_err());
}

#[test]
fn generator_keeps_its_configuration() {
    let body = vec![b'{', b'}'];
    let r = SimpleJsonGetRequest::new(
        Some(body.clone()),
        "http://localhost:8080/api".to_string(),
        "POST",
    )
    .unwrap();
    assert_eq!(r.url, "http://localhost:8080/api");
    assert_eq!(r.method, "POST");
    assert_eq!(r.json_content, Some(body));
}
