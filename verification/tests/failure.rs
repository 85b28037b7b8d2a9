use cnoidc::failure::{
    is_auth_error, is_success, status_text, status_text_with, Failure, HttpError, ZappError,
};

#[test]
fn recognises_auth_errors() {
    let http = Failure::answered(HttpError {
        status: 401,
        body: "{}".to_string(),
    });
    assert!(is_auth_error(&http));
    let library = Failure::new(
        "The request resulted in error. Response: 401 Unauthorized. Body: {}".to_string(),
    )
    .context("listing applications");
    assert!(is_auth_error(&library));
    let other = Failure::answered(HttpError {
        status: 404,
        body: String::new(),
    });
    assert!(!is_auth_error(&other));
    assert!(!is_auth_error(&Failure::new("connection refused".to_string())));
}

#[test]
fn a_typed_answer_decides_by_its_status_alone() {
    let forbidden = Failure::answered(HttpError {
        status: 403,
        body: "401 Unauthorized".to_string(),
    });
    assert!(!is_auth_error(&forbidden));
    assert!(is_auth_error(
        &Failure::new("Errors.Token.Invalid (AUTH-1)".to_string()).context("x")
    ));
}

#[test]
fn context_goes_in_front() {
    let failure = Failure::answered(HttpError {
        status: 404,
        body: "gone".to_string(),
    })
    .context("looking up application 7")
    .context("outer");
    assert_eq!(
        failure.text(),
        "outer: looking up application 7: Zitadel answered 404 Not Found: gone"
    );
    assert!(failure.has_status(404));
    assert!(!failure.has_status(409));
    assert!(!Failure::new("404".to_string()).has_status(404));
}

#[test]
fn answers_of_zapp_are_not_those_of_zitadel() {
    let refused = Failure::refused(ZappError {
        status: 404,
        body: "who?".to_string(),
    })
    .context("outer");
    assert!(!refused.has_status(404));
    assert!(!is_auth_error(&refused));
    assert_eq!(refused.zapp.as_ref().map(|e| e.status), Some(404));
    assert_eq!(refused.text(), "outer: zapp answered 404 Not Found: who?");
    let answered = Failure::answered(HttpError {
        status: 404,
        body: String::new(),
    });
    assert!(answered.zapp.is_none());
    assert!(Failure::new("x".to_string()).zapp.is_none());
}

#[test]
fn statuses_are_written_like_the_client_does() {
    for code in [100, 200, 204, 301, 401, 404, 409, 418, 500, 503, 599, 999] {
        let status = reqwest::StatusCode::from_u16(code).expect("valid status");
        assert_eq!(status_text(code), status.to_string());
        assert_eq!(is_success(code), status.is_success());
    }
    assert_eq!(status_text(404), "404 Not Found");
    assert_eq!(status_text(599), "599 <unknown status code>");
    assert_eq!(status_text_with(599, None), "599 <unknown status code>");
    assert_eq!(
        status_text_with(200, Some("Fine".to_string())),
        "200 Fine"
    );
}

#[test]
fn success_is_two_hundred_and_something() {
    assert!(!is_success(199));
    assert!(is_success(200));
    assert!(is_success(299));
    assert!(!is_success(300));
}

#[test]
fn errors_have_words() {
    let http = HttpError {
        status: 409,
        body: "x".to_string(),
    };
    assert_eq!(http.message(), "Zitadel answered 409 Conflict: x");
    let zapp = ZappError {
        status: 503,
        body: String::new(),
    };
    assert_eq!(zapp.message(), "zapp answered 503 Service Unavailable: ");
}
