use app_store_connect::{
    AppleCodesignError, NewSubmissionRequest, NewSubmissionRequestNotification,
    NewSubmissionResponse, NewSubmissionResponseData, NewSubmissionResponseDataAttributes,
    SubmissionLogResponse, SubmissionLogResponseData, SubmissionLogResponseDataAttributes,
    SubmissionResponse, SubmissionResponseData, SubmissionResponseDataAttributes,
    SubmissionResponseStatus,
};
use serde_json::Value;

fn json(text: &str) -> Value {
    serde_json::from_str(text).unwrap()
}

fn response_with(status: SubmissionResponseStatus) -> SubmissionResponse {
    SubmissionResponse {
        data: SubmissionResponseData {
            attributes: SubmissionResponseDataAttributes {
                created_date: "2022-06-08T01:38:09.498Z".to_string(),
                name: "MyApp.dmg".to_string(),
                status,
            },
            id: "2efe2717-52ef-43a5-96dc-0797e4ca1041".to_string(),
            record_kind: "submissions".to_string(),
        },
        meta: json("{}"),
    }
}

const STATUS_BODY: &str = r#"{
    "data": {
        "attributes": {
            "createdDate": "2022-06-08T01:38:09.498Z",
            "name": "MyApp.dmg",
            "status": "Accepted"
        },
        "id": "2efe2717-52ef-43a5-96dc-0797e4ca1041",
        "type": "submissions"
    },
    "meta": {}
}"#;

const NEW_SUBMISSION_BODY: &str = r#"{
    "data": {
        "attributes": {
            "awsAccessKeyId": "SECRET-REDACTED",
            "awsSecretAccessKey": "wJalrXUtnFEMI/K7MDENG/bPxRfiCYEXAMPLEKEY",
            "awsSessionToken": "AQoDYXdzEJr",
            "bucket": "EXAMPLE-BUCKET",
            "object": "EXAMPLE-KEY-NAME"
        },
        "id": "2efe2717-52ef-43a5-96dc-0797e4ca1041",
        "type": "newSubmissions"
    },
    "meta": {}
}"#;

const LOG_LOCATION_BODY: &str = r#"{
    "data": {
        "attributes": {
            "developerLogUrl": "https://notary.example/logs/2efe2717?sig=abc"
        },
        "id": "2efe2717-52ef-43a5-96dc-0797e4ca1041",
        "type": "submissionsLog"
    },
    "meta": {}
}"#;

#[test]
fn status_names_of_the_service_are_known() {
    assert_eq!(SubmissionResponseStatus::from_name("Accepted"), SubmissionResponseStatus::Accepted);
    assert_eq!(
        SubmissionResponseStatus::from_name("In Progress"),
        SubmissionResponseStatus::InProgress
    );
    assert_eq!(SubmissionResponseStatus::from_name("Invalid"), SubmissionResponseStatus::Invalid);
    assert_eq!(SubmissionResponseStatus::from_name("Rejected"), SubmissionResponseStatus::Rejected);
}

#[test]
fn other_status_names_are_unknown() {
    for name in [
        "", "Unknown", "accepted", "ACCEPTED", "InProgress", "In progress", "In Progress ",
        " Accepted", "Accepted\n", "Invalid!", "Reject", "Rejectedd", "Superseded",
    ] {
        assert_eq!(SubmissionResponseStatus::from_name(name), SubmissionResponseStatus::Unknown);
    }
}

#[test]
fn accepted_submission_is_success() {
    let response = response_with(SubmissionResponseStatus::Accepted);
    let verdict = response.clone().into_result().unwrap();
    assert_eq!(verdict.data.id, response.data.id);
    assert_eq!(verdict.data.record_kind, response.data.record_kind);
    assert_eq!(verdict.data.attributes.name, response.data.attributes.name);
    assert_eq!(verdict.data.attributes.created_date, response.data.attributes.created_date);
    assert_eq!(verdict.data.attributes.status, SubmissionResponseStatus::Accepted);
    assert_eq!(verdict.meta, response.meta);
}

#[test]
fn submission_in_progress_is_the_signal_to_look_again() {
    assert!(matches!(
        response_with(SubmissionResponseStatus::InProgress).into_result(),
        Err(AppleCodesignError::NotarizeIncomplete)
    ));
}

#[test]
fn invalid_submission_is_invalid() {
    assert!(matches!(
        response_with(SubmissionResponseStatus::Invalid).into_result(),
        Err(AppleCodesignError::NotarizeInvalid)
    ));
}

#[test]
fn submission_of_unknown_status_has_an_error_of_its_own() {
    assert!(matches!(
        response_with(SubmissionResponseStatus::Unknown).into_result(),
        Err(AppleCodesignError::NotarizeUnknownStatus)
    ));
}

#[test]
fn rejected_submission_is_rejected_with_the_stock_message() {
    match response_with(SubmissionResponseStatus::Rejected).into_result() {
        Err(AppleCodesignError::NotarizeRejected(code, message)) => {
            assert_eq!(code, 0);
            assert_eq!(message, "Notarization error");
        }
        other => panic!("unexpected outcome: {:?}", other),
    }
}

#[test]
fn verdict_follows_the_status_name() {
    for name in ["Accepted", "In Progress", "Invalid", "Rejected", "Expired", ""] {
        let verdict = response_with(SubmissionResponseStatus::from_name(name)).into_result();
        match name {
            "Accepted" => assert!(verdict.is_ok()),
            "In Progress" => {
                assert!(matches!(verdict, Err(AppleCodesignError::NotarizeIncomplete)))
            }
            "Rejected" => {
                assert!(matches!(verdict, Err(AppleCodesignError::NotarizeRejected(0, _))))
            }
            "Invalid" => assert!(matches!(verdict, Err(AppleCodesignError::NotarizeInvalid))),
            _ => assert!(matches!(verdict, Err(AppleCodesignError::NotarizeUnknownStatus))),
        }
    }
}

#[test]
fn notification_document_has_channel_and_target() {
    let notification = NewSubmissionRequestNotification {
        channel: "webhook".to_string(),
        target: "https://example.com/hook".to_string(),
    };
    assert_eq!(
        notification.to_json(),
        json(r#"{"channel": "webhook", "target": "https://example.com/hook"}"#)
    );
}

#[test]
fn new_submission_document_without_notifications() {
    let request = NewSubmissionRequest {
        notifications: Vec::new(),
        sha256: "68b329da9893e34099c7d8ad5cb9c940".to_string(),
        submission_name: "MyApp.dmg".to_string(),
    };
    assert_eq!(
        serde_json::to_string(&request.to_json()).unwrap(),
        r#"{"notifications":[],"sha256":"68b329da9893e34099c7d8ad5cb9c940","submissionName":"MyApp.dmg"}"#
    );
}

#[test]
fn new_submission_document_lists_notifications_in_order() {
    let request = NewSubmissionRequest {
        notifications: vec![
            NewSubmissionRequestNotification {
                channel: "webhook".to_string(),
                target: "https://example.com/a".to_string(),
            },
            NewSubmissionRequestNotification {
                channel: "webhook".to_string(),
                target: "https://example.com/b".to_string(),
            },
        ],
        sha256: "00ff".to_string(),
        submission_name: "a \"quoted\" name".to_string(),
    };
    assert_eq!(
        serde_json::to_string(&request.to_json()).unwrap(),
        "{\"notifications\":[{\"channel\":\"webhook\",\"target\":\"https://example.com/a\"},\
         {\"channel\":\"webhook\",\"target\":\"https://example.com/b\"}],\
         \"sha256\":\"00ff\",\"submissionName\":\"a \\\"quoted\\\" name\"}"
    );
}

#[test]
fn new_submission_response_is_read() {
    let response = NewSubmissionResponse::from_slice(NEW_SUBMISSION_BODY.as_bytes()).unwrap();
    assert_eq!(response.data.id, "2efe2717-52ef-43a5-96dc-0797e4ca1041");
    assert_eq!(response.data.record_kind, "newSubmissions");
    assert_eq!(response.data.attributes.aws_access_key_id, "SECRET-REDACTED");
    assert_eq!(
        response.data.attributes.aws_secret_access_key,
        "wJalrXUtnFEMI/K7MDENG/bPxRfiCYEXAMPLEKEY"
    );
    assert_eq!(response.data.attributes.aws_session_token, "AQoDYXdzEJr");
    assert_eq!(response.data.attributes.bucket, "EXAMPLE-BUCKET");
    assert_eq!(response.data.attributes.object, "EXAMPLE-KEY-NAME");
    assert_eq!(response.meta, json("{}"));
}

#[test]
fn new_submission_response_from_a_document() {
    let doc = json(NEW_SUBMISSION_BODY);
    let response = NewSubmissionResponse::from_json(&doc).unwrap();
    assert_eq!(response.data.attributes.bucket, "EXAMPLE-BUCKET");
    let data = NewSubmissionResponseData::from_json(&doc["data"]).unwrap();
    assert_eq!(data.id, "2efe2717-52ef-43a5-96dc-0797e4ca1041");
    let attributes =
        NewSubmissionResponseDataAttributes::from_json(&doc["data"]["attributes"]).unwrap();
    assert_eq!(attributes.object, "EXAMPLE-KEY-NAME");
    assert!(NewSubmissionResponseDataAttributes::from_json(&doc).is_none());
    assert!(NewSubmissionResponseData::from_json(&doc["data"]["attributes"]).is_none());
    assert!(NewSubmissionResponse::from_json(&doc["data"]).is_none());
}

#[test]
fn members_that_are_not_asked_for_are_ignored() {
    let body = r#"{
        "data": {
            "attributes": {
                "createdDate": "today", "name": "n", "status": "Rejected", "extra": [1, 2]
            },
            "id": "i", "type": "t", "links": {"self": "x"}
        },
        "meta": {"page": 1},
        "links": null
    }"#;
    let response = SubmissionResponse::from_slice(body.as_bytes()).unwrap();
    assert_eq!(response.data.attributes.status, SubmissionResponseStatus::Rejected);
    assert_eq!(response.meta, json(r#"{"page": 1}"#));
}

#[test]
fn meta_may_be_any_document() {
    for meta in ["null", "7", "\"text\"", "[1, {\"a\": null}]", "{\"a\": {\"b\": [true]}}"] {
        let body = STATUS_BODY.replace("\"meta\": {}", &format!("\"meta\": {}", meta));
        let response = SubmissionResponse::from_slice(body.as_bytes()).unwrap();
        assert_eq!(response.meta, json(meta));
    }
}

#[test]
fn body_that_is_no_json_gives_the_parser_error() {
    for body in ["", "{", "<html>Bad Gateway</html>", "{\"data\": }", "{} trailing"] {
        assert!(matches!(
            NewSubmissionResponse::from_slice(body.as_bytes()),
            Err(AppleCodesignError::SerdeJson(_))
        ));
        assert!(matches!(
            SubmissionResponse::from_slice(body.as_bytes()),
            Err(AppleCodesignError::SerdeJson(_))
        ));
        assert!(matches!(
            SubmissionLogResponse::from_slice(body.as_bytes()),
            Err(AppleCodesignError::SerdeJson(_))
        ));
    }
    assert!(matches!(
        SubmissionResponse::from_slice(b"{\"data\": \"\xff\"}"),
        Err(AppleCodesignError::SerdeJson(_))
    ));
}

#[test]
fn document_of_another_shape_is_malformed() {
    let bodies = [
        "null".to_string(),
        "[]".to_string(),
        "{}".to_string(),
        "\"Accepted\"".to_string(),
        r#"{"data": {}, "meta": {}}"#.to_string(),
        r#"{"data": [], "meta": {}}"#.to_string(),
        STATUS_BODY.replace("\"meta\": {}", "\"other\": {}"),
        STATUS_BODY.replace("\"id\"", "\"ID\""),
        STATUS_BODY.replace("\"type\": \"submissions\"", "\"type\": 5"),
        STATUS_BODY.replace("\"type\": \"submissions\"", "\"type\": null"),
        STATUS_BODY.replace("createdDate", "created_date"),
        STATUS_BODY.replace("\"status\": \"Accepted\"", "\"status\": 1"),
        STATUS_BODY.replace("\"status\": \"Accepted\"", "\"status\": [\"Accepted\"]"),
        STATUS_BODY.replace("\"name\": \"MyApp.dmg\",", ""),
    ];
    for body in bodies {
        assert!(
            matches!(
                SubmissionResponse::from_slice(body.as_bytes()),
                Err(AppleCodesignError::NotarizeResponseMalformed)
            ),
            "{}",
            body
        );
    }
}

#[test]
fn new_submission_response_needs_all_five_credentials() {
    for member in ["awsAccessKeyId", "awsSecretAccessKey", "awsSessionToken", "bucket", "object"] {
        let body = NEW_SUBMISSION_BODY.replace(&format!("\"{}\"", member), "\"renamed\"");
        assert!(matches!(
            NewSubmissionResponse::from_slice(body.as_bytes()),
            Err(AppleCodesignError::NotarizeResponseMalformed)
        ));
    }
    assert!(matches!(
        NewSubmissionResponse::from_slice(STATUS_BODY.as_bytes()),
        Err(AppleCodesignError::NotarizeResponseMalformed)
    ));
}

#[test]
fn status_response_is_read_with_each_status() {
    for (name, status) in [
        ("Accepted", SubmissionResponseStatus::Accepted),
        ("In Progress", SubmissionResponseStatus::InProgress),
        ("Invalid", SubmissionResponseStatus::Invalid),
        ("Rejected", SubmissionResponseStatus::Rejected),
        ("Purged", SubmissionResponseStatus::Unknown),
    ] {
        let body = STATUS_BODY.replace("Accepted", name);
        let response = SubmissionResponse::from_slice(body.as_bytes()).unwrap();
        assert_eq!(response.data.attributes.status, status);
        assert_eq!(response.data.attributes.created_date, "2022-06-08T01:38:09.498Z");
        assert_eq!(response.data.attributes.name, "MyApp.dmg");
        assert_eq!(response.data.id, "2efe2717-52ef-43a5-96dc-0797e4ca1041");
        assert_eq!(response.data.record_kind, "submissions");
    }
}

#[test]
fn status_response_from_a_document() {
    let doc = json(STATUS_BODY);
    assert!(SubmissionResponse::from_json(&doc).is_some());
    assert!(SubmissionResponseData::from_json(&doc["data"]).is_some());
    let attributes = SubmissionResponseDataAttributes::from_json(&doc["data"]["attributes"]);
    assert_eq!(attributes.unwrap().status, SubmissionResponseStatus::Accepted);
    assert!(SubmissionResponseDataAttributes::from_json(&doc["data"]).is_none());
    assert!(SubmissionResponseData::from_json(&doc).is_none());
    assert!(SubmissionResponse::from_json(&doc["meta"]).is_none());
}

#[test]
fn log_location_is_read() {
    let response = SubmissionLogResponse::from_slice(LOG_LOCATION_BODY.as_bytes()).unwrap();
    assert_eq!(
        response.data.attributes.developer_log_url(),
        "https://notary.example/logs/2efe2717?sig=abc"
    );
    assert_eq!(response.data.id, "2efe2717-52ef-43a5-96dc-0797e4ca1041");
    assert_eq!(response.data.record_kind, "submissionsLog");
    assert_eq!(response.meta, json("{}"));
}

#[test]
fn log_location_from_a_document() {
    let doc = json(LOG_LOCATION_BODY);
    assert!(SubmissionLogResponse::from_json(&doc).is_some());
    assert!(SubmissionLogResponseData::from_json(&doc["data"]).is_some());
    let attributes = SubmissionLogResponseDataAttributes::from_json(&doc["data"]["attributes"]);
    assert_eq!(
        attributes.unwrap().developer_log_url(),
        "https://notary.example/logs/2efe2717?sig=abc"
    );
    assert!(SubmissionLogResponseDataAttributes::from_json(&json("{\"developerLogUrl\": 1}"))
        .is_none());
    assert!(SubmissionLogResponseData::from_json(&doc).is_none());
    assert!(SubmissionLogResponse::from_json(&doc["data"]).is_none());
}

#[test]
fn log_location_without_address_is_malformed() {
    let body = LOG_LOCATION_BODY.replace("developerLogUrl", "developerLogURL");
    assert!(matches!(
        SubmissionLogResponse::from_slice(body.as_bytes()),
        Err(AppleCodesignError::NotarizeResponseMalformed)
    ));
}
