use everyday_rewards_receipts::client::{EverydayRewardsError, ValueWithSource};
use everyday_rewards_receipts::models::{ApiError, ApiResponse};

fn auth_error() -> ApiError {
    ApiError { code: "AUTH".to_string(), message: "bad token".to_string(), status: 401 }
}

/// Reads the envelope in `text` field by field.
fn envelope(text: &str) -> ApiResponse {
    let value: serde_json::Value = serde_json::from_str(text).unwrap();
    let data = match value.get("data") {
        None | Some(serde_json::Value::Null) => None,
        Some(data) => Some(data.to_string()),
    };
    let errors = match value.get("errors") {
        None | Some(serde_json::Value::Null) => None,
        Some(list) => Some(
            list.as_array()
                .unwrap()
                .iter()
                .map(|error| ApiError {
                    code: error["code"].as_str().unwrap().to_string(),
                    message: error["message"].as_str().unwrap().to_string(),
                    status: error["status"].as_i64().unwrap() as i32,
                })
                .collect(),
        ),
    };
    ApiResponse { data, errors }
}

#[test]
fn errors_in_envelope_become_api_error() {
    let text = r#"{"data": null, "errors": [{"code":"AUTH","message":"bad token","status":401}]}"#;
    match envelope(text).into_result(text) {
        Err(EverydayRewardsError::ApiError(errors)) => {
            assert_eq!(errors.len(), 1);
            assert_eq!(errors[0].code, "AUTH");
            assert_eq!(errors[0].message, "bad token");
            assert_eq!(errors[0].status, 401);
        }
        other => panic!("expected an api error, got {:?}", other),
    }
}

#[test]
fn empty_envelope_becomes_unknown_error_with_body() {
    let text = r#"{"data": null, "errors": null}"#;
    match envelope(text).into_result(text) {
        Err(EverydayRewardsError::UnknownError(body)) => {
            assert_eq!(body, r#"Unknown response: {"data": null, "errors": null}"#);
            assert!(body.contains(text));
        }
        other => panic!("expected an unknown error, got {:?}", other),
    }
}

#[test]
fn envelope_with_payload_gives_the_payload() {
    let text = r#"{"data": {"receiptDetails": {"download": {"filename": "a.pdf", "url": "u"}}}}"#;
    match envelope(text).into_result(text) {
        Ok(source) => {
            assert_eq!(source, r#"{"receiptDetails":{"download":{"filename":"a.pdf","url":"u"}}}"#)
        }
        other => panic!("expected the payload, got {:?}", other),
    }
}

#[test]
fn body_without_fields_is_an_unknown_error() {
    let text = "{}";
    match envelope(text).into_result(text) {
        Err(EverydayRewardsError::UnknownError(body)) => assert_eq!(body, "Unknown response: {}"),
        other => panic!("expected an unknown error, got {:?}", other),
    }
}

#[test]
fn payload_of_envelope_is_handed_on_verbatim() {
    let data = "{ \"receiptDetails\" : {\"download\":{\"filename\":\"a.pdf\",\"url\":\"u\"}} }";
    let envelope = ApiResponse { data: Some(data.to_string()), errors: None };
    match envelope.into_result("ignored") {
        Ok(source) => assert_eq!(source, data),
        other => panic!("expected the payload, got {:?}", other),
    }
}

#[test]
fn errors_win_over_payload() {
    let second = ApiError { code: "RATE".to_string(), message: "slow down".to_string(), status: 429 };
    let envelope = ApiResponse {
        data: Some("{}".to_string()),
        errors: Some(vec![auth_error(), second]),
    };
    match envelope.into_result("{}") {
        Err(EverydayRewardsError::ApiError(errors)) => {
            assert_eq!(errors.len(), 2);
            assert_eq!(errors[0].code, "AUTH");
            assert_eq!(errors[1].code, "RATE");
            assert_eq!(errors[1].status, 429);
        }
        other => panic!("expected an api error, got {:?}", other),
    }
}

#[test]
fn empty_error_list_is_still_an_api_error() {
    let envelope = ApiResponse { data: Some("{}".to_string()), errors: Some(Vec::new()) };
    match envelope.into_result("{}") {
        Err(EverydayRewardsError::ApiError(errors)) => assert!(errors.is_empty()),
        other => panic!("expected an api error, got {:?}", other),
    }
}

#[test]
fn unknown_error_of_empty_body() {
    let envelope = ApiResponse { data: None, errors: None };
    match envelope.into_result("") {
        Err(EverydayRewardsError::UnknownError(body)) => assert_eq!(body, "Unknown response: "),
        other => panic!("expected an unknown error, got {:?}", other),
    }
}

#[test]
fn value_with_source_gives_its_value() {
    let paired = ValueWithSource { value: 7u32, source: "7".to_string() };
    let value: &u32 = paired.as_ref();
    assert_eq!(*value, 7);
    assert_eq!(paired.source, "7");
}
