use web_scaffolding::errors::{
    BoxError, ResultCodeExt, ResultWebExt, StatusCode, WebError, WebErrorKind, WebResult,
};

fn response(error: WebError) -> (u16, String) {
    let (code, body) = error.into_response();
    (code.as_u16(), body)
}

#[test]
fn status_codes_have_three_digits() {
    assert_eq!(StatusCode::from_u16(100).unwrap().as_u16(), 100);
    assert_eq!(StatusCode::from_u16(999).unwrap().as_u16(), 999);
    assert_eq!(StatusCode::from_u16(99), None);
    assert_eq!(StatusCode::from_u16(1000), None);
    assert_eq!(StatusCode::bad_request().as_u16(), 400);
    assert_eq!(StatusCode::unauthorized().as_u16(), 401);
    assert_eq!(StatusCode::not_found().as_u16(), 404);
    assert_eq!(StatusCode::method_not_allowed().as_u16(), 405);
    assert_eq!(StatusCode::internal_server_error().as_u16(), 500);
}

#[test]
fn client_errors_are_disclosed_in_detail() {
    let error = WebError::client(BoxError::from_text("bad \"input\"\n"));
    assert_eq!(error.inner.display, "bad \"input\"\n");
    assert_eq!(response(error), (400, r#""bad \"input\"\n""#.to_string()));
}

#[test]
fn internal_errors_are_not_disclosed() {
    let first = WebError::internal(BoxError::from_text("the password is 1234"));
    let second = WebError::internal(BoxError::from_text("disk full"));
    assert_eq!(response(first), (500, "Something went wrong".to_string()));
    assert_eq!(response(second), (500, "Something went wrong".to_string()));
}

#[test]
fn chosen_codes_are_answered() {
    let error = WebError::client(BoxError::from_text("Teapot"));
    let code = StatusCode::from_u16(418).unwrap();
    assert_eq!(response(error.code(code)), (418, "\"Teapot\"".to_string()));
    let error = WebError::internal(BoxError::from_text("Teapot"));
    assert_eq!(response(error.code(code)), (418, "Something went wrong".to_string()));
}

#[test]
fn tuples_make_internal_errors() {
    let code = StatusCode::from_u16(503).unwrap();
    let error = WebError::from_tuple((code, "overloaded"));
    assert_eq!(error.kind, WebErrorKind::Internal);
    assert_eq!(error.inner.display, "overloaded");
    assert_eq!(error.inner.debug, "\"overloaded\"");
    assert_eq!(response(error), (503, "Something went wrong".to_string()));
}

#[test]
fn results_are_turned_into_failures_of_the_client() {
    let failed: Result<u8, BoxError> = Err(BoxError::from_text("no"));
    let error = failed.client_error().code(StatusCode::not_found()).unwrap_err();
    assert_eq!(error.kind, WebErrorKind::Client);
    assert_eq!(response(error), (404, "\"no\"".to_string()));
    let fine: Result<u8, BoxError> = Ok(7);
    let fine: WebResult<u8> = fine.client_error().code(StatusCode::not_found());
    assert_eq!(fine.unwrap(), 7);
}

#[test]
fn other_errors_are_internal() {
    assert_eq!(WebErrorKind::default(), WebErrorKind::Internal);
    let error = WebError::from(BoxError::from_text("lost"));
    assert_eq!(error.kind, WebErrorKind::Internal);
    assert_eq!(error.code, None);
    assert_eq!(error.inner.clone().display, "lost");
}
