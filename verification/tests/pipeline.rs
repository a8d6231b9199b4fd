use credential_broker::error::PipelineError;
use credential_broker::pipeline::{
    advance, extract_key, on_exchanged, on_fetched, on_request, replay, scopes, Config, Event,
    Request, Step, BUCKET_MISSING, BUCKET_VARIABLE, EXCHANGE_ERROR_PREFIX, KEY_PARAMETER,
    TOKEN_SCOPE,
};
use credential_broker::response::{Response, Status};
use credential_broker::storage::GetObjectFailure;

fn config() -> Config {
    Config::new("vault".to_string())
}

fn request(key: &str) -> Request {
    Request {
        credential_key: Some(key.to_string()),
    }
}

fn no_such_key() -> GetObjectFailure {
    GetObjectFailure::Service {
        no_such_key: true,
        description: "NoSuchKey(NoSuchKey { message: None })".to_string(),
    }
}

fn response_of(step: Step) -> Response {
    match step {
        Step::Respond(response) => response,
        other => panic!("unexpected step: {:?}", other),
    }
}

#[test]
fn names_of_parameter_variable_and_scope() {
    assert_eq!(KEY_PARAMETER, "s3_key");
    assert_eq!(BUCKET_VARIABLE, "S3_BUCKET");
    assert_eq!(TOKEN_SCOPE, "https://www.googleapis.com/auth/cloud-platform");
    assert_eq!(EXCHANGE_ERROR_PREFIX, "got gcp auth error:");
}

#[test]
fn scopes_hold_the_one_fixed_scope() {
    assert_eq!(
        scopes(),
        vec!["https://www.googleapis.com/auth/cloud-platform".to_string()]
    );
}

#[test]
fn config_keeps_its_bucket() {
    assert_eq!(Config::new("vault".to_string()).bucket(), "vault");
    assert_eq!(Config::new(String::new()).bucket(), "");
}

#[test]
fn config_resolves_from_a_setting() {
    let config = Config::resolve(Some("vault".to_string())).expect("a bucket is set");
    assert_eq!(config.bucket(), "vault");
}

#[test]
fn config_without_a_setting_is_a_configuration_error() {
    assert_eq!(
        Config::resolve(None),
        Err(PipelineError::Configuration(
            "environment variable not found: S3_BUCKET".to_string()
        ))
    );
    assert_eq!(BUCKET_MISSING, "environment variable not found: S3_BUCKET");
}

#[test]
fn extract_key_takes_the_key_out() {
    assert_eq!(extract_key(request("good.json")), Ok("good.json".to_string()));
    assert_eq!(extract_key(request("")), Ok(String::new()));
}

#[test]
fn extract_key_misses_an_absent_key() {
    assert_eq!(
        extract_key(Request {
            credential_key: None
        }),
        Err(PipelineError::ClientInput)
    );
}

#[test]
fn request_without_key_is_a_bad_request() {
    let response = replay(
        &config(),
        Request {
            credential_key: None,
        },
        Ok(b"{}".to_vec()),
        Ok("abc123".to_string()),
    );
    assert_eq!(
        response,
        Response {
            status: Status::BadRequest,
            body: "parameters is not applied".to_string(),
        }
    );
    assert_eq!(response.status.code(), 400);
}

#[test]
fn request_without_key_asks_for_nothing() {
    for bucket in ["vault", "", "another-bucket"] {
        let step = advance(
            &Config::new(bucket.to_string()),
            Event::Request(Request {
                credential_key: None,
            }),
        );
        match step {
            Step::Respond(response) => {
                assert_eq!(response.status, Status::BadRequest);
                assert_eq!(response.body, "parameters is not applied");
            }
            other => panic!("unexpected step: {:?}", other),
        }
    }
}

#[test]
fn request_with_key_asks_for_the_object() {
    match on_request(&config(), request("good.json")) {
        Step::Fetch { bucket, key } => {
            assert_eq!(bucket, "vault");
            assert_eq!(key, "good.json");
        }
        other => panic!("unexpected step: {:?}", other),
    }
}

#[test]
fn empty_key_is_still_a_key() {
    match on_request(&config(), request("")) {
        Step::Fetch { bucket, key } => {
            assert_eq!(bucket, "vault");
            assert_eq!(key, "");
        }
        other => panic!("unexpected step: {:?}", other),
    }
}

#[test]
fn missing_object_is_not_found() {
    let response = replay(
        &config(),
        request("missing.json"),
        Err(no_such_key()),
        Ok("abc123".to_string()),
    );
    assert_eq!(
        response,
        Response {
            status: Status::NotFound,
            body: "no suck s3_key".to_string(),
        }
    );
    assert_eq!(response.status.code(), 404);
}

#[test]
fn any_key_that_storage_does_not_know_is_not_found() {
    for key in ["missing.json", "", "a/b/c", "\u{00e9}.json", "good.json"] {
        let response = replay(
            &config(),
            request(key),
            Err(no_such_key()),
            Err("unused".to_string()),
        );
        assert_eq!(response.status.code(), 404);
        assert_eq!(response.body, "no suck s3_key");
    }
}

#[test]
fn storage_faults_are_internal_errors_with_description() {
    let failures = vec![
        (
            GetObjectFailure::Service {
                no_such_key: false,
                description: "Unhandled(AccessDenied)".to_string(),
            },
            "got get object error:Unhandled(AccessDenied)",
        ),
        (
            GetObjectFailure::Sdk {
                description: "DispatchFailure(timeout)".to_string(),
            },
            "got sdk error:DispatchFailure(timeout)",
        ),
        (
            GetObjectFailure::Read {
                description: "Kind(UnexpectedEof)".to_string(),
            },
            "got read object error:Kind(UnexpectedEof)",
        ),
    ];
    for (failure, body) in failures {
        let description = match &failure {
            GetObjectFailure::Service { description, .. } => description.clone(),
            GetObjectFailure::Sdk { description } => description.clone(),
            GetObjectFailure::Read { description } => description.clone(),
        };
        let response = replay(
            &config(),
            request("good.json"),
            Err(failure),
            Ok("abc123".to_string()),
        );
        assert_eq!(response.status.code(), 500);
        assert_eq!(response.body, body);
        assert!(response.body.contains(&description));
    }
}

#[test]
fn bytes_that_are_not_json_are_an_internal_error() {
    let response = replay(
        &config(),
        request("bad.json"),
        Ok(b"not json".to_vec()),
        Ok("abc123".to_string()),
    );
    assert_eq!(
        response,
        Response {
            status: Status::InternalServerError,
            body: "got parse json error:Error(\"expected ident\", line: 1, column: 2)".to_string(),
        }
    );
    assert_eq!(response.status.code(), 500);
}

#[test]
fn json_of_another_shape_is_an_internal_error() {
    let response = replay(
        &config(),
        request("good.json"),
        Ok(b"{\"foo\":\"bar\"}".to_vec()),
        Ok("abc123".to_string()),
    );
    assert_eq!(
        response,
        Response {
            status: Status::InternalServerError,
            body: "got  construct service account error:CustomServiceAccountCredentials(Error(\"missing field `private_key`\", line: 1, column: 13))".to_string(),
        }
    );
    assert_eq!(response.status.code(), 500);
}

#[test]
fn unusable_credential_never_reaches_the_exchange() {
    let blobs: Vec<&[u8]> = vec![
        b"not json",
        b"",
        b"{\"foo\":\"bar\"}",
        b"[1,2,3]",
        b"{\"private_key\":\"none\",\"client_email\":\"a@b.c\",\"token_uri\":\"https://t\"}",
        b"{\"foo\":",
    ];
    for blob in blobs {
        match on_fetched(Ok(blob.to_vec())) {
            Step::Respond(response) => {
                assert_eq!(response.status, Status::InternalServerError);
                assert!(
                    response.body.starts_with("got parse json error:")
                        || response
                            .body
                            .starts_with("got  construct service account error:")
                );
            }
            other => panic!("unexpected step: {:?}", other),
        }
    }
}

#[test]
fn failed_fetch_never_reaches_the_exchange() {
    let response = response_of(advance(&config(), Event::Fetched(Err(no_such_key()))));
    assert_eq!(response.status, Status::NotFound);
    let response = response_of(on_fetched(Err(GetObjectFailure::Sdk {
        description: "down".to_string(),
    })));
    assert_eq!(response.status, Status::InternalServerError);
    assert_eq!(response.body, "got sdk error:down");
}

#[test]
fn granted_token_is_the_whole_body() {
    assert_eq!(
        on_exchanged(Ok("abc123".to_string())),
        Response {
            status: Status::Success,
            body: "abc123".to_string(),
        }
    );
    let response = response_of(advance(
        &config(),
        Event::Exchanged(Ok("abc123".to_string())),
    ));
    assert_eq!(response.status.code(), 200);
    assert_eq!(response.body, "abc123");
}

#[test]
fn refused_exchange_is_an_internal_error() {
    assert_eq!(
        on_exchanged(Err("OAuthConnectionError(hyper::Error(Connect))".to_string())),
        Response {
            status: Status::InternalServerError,
            body: "got gcp auth error:OAuthConnectionError(hyper::Error(Connect))".to_string(),
        }
    );
}

#[test]
fn same_answers_give_the_same_response() {
    let run = |key: Option<&str>, blob: &[u8]| {
        replay(
            &config(),
            Request {
                credential_key: key.map(str::to_string),
            },
            Ok(blob.to_vec()),
            Ok("abc123".to_string()),
        )
    };
    assert_eq!(run(None, b"{}"), run(None, b"{}"));
    assert_eq!(run(Some("bad.json"), b"not json"), run(Some("bad.json"), b"not json"));
    assert_eq!(
        run(Some("good.json"), b"{\"foo\":\"bar\"}"),
        run(Some("good.json"), b"{\"foo\":\"bar\"}")
    );
    let missing = || {
        replay(
            &config(),
            request("missing.json"),
            Err(no_such_key()),
            Ok("abc123".to_string()),
        )
    };
    assert_eq!(missing(), missing());
}

#[test]
fn an_answer_that_is_not_asked_for_plays_no_part() {
    let with_token = replay(
        &config(),
        request("missing.json"),
        Err(no_such_key()),
        Ok("abc123".to_string()),
    );
    let with_refusal = replay(
        &config(),
        request("missing.json"),
        Err(no_such_key()),
        Err("refused".to_string()),
    );
    assert_eq!(with_token, with_refusal);
}
