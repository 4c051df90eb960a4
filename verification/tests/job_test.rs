use mcai_worker_sdk::credential::{
    DataResponseBody, Session, SessionBody, SessionResponseBody, ValueResponseBody,
};
use mcai_worker_sdk::error::{MessageError, ParameterError};
use mcai_worker_sdk::job::{JobResult, JobStatus};
use mcai_worker_sdk::json::{Json, Number};
use mcai_worker_sdk::parameter::Parameter;

fn message(text: &str) -> Parameter {
    Parameter::StringParam {
        id: "message".to_string(),
        default: None,
        value: Some(text.to_string()),
    }
}

#[test]
fn a_new_result_is_unknown_and_empty() {
    let result = JobResult::new(31);
    assert_eq!(
        result,
        JobResult {
            job_id: 31,
            status: JobStatus::Unknown,
            parameters: vec![],
            destination_paths: vec![],
            execution_duration: Number::Float("0.0".to_string()),
        }
    );
    assert!(result.get_destination_paths().is_empty());
    assert_eq!(
        result.get_parameter::<String>("message"),
        Err(ParameterError::Missing)
    );
}

#[test]
fn a_status_is_terminal_once_completed_or_in_error() {
    assert!(JobStatus::Completed.is_terminal());
    assert!(JobStatus::Error.is_terminal());
    assert!(!JobStatus::Unknown.is_terminal());
    assert!(!JobStatus::Initialized.is_terminal());
    assert!(!JobStatus::Running.is_terminal());
}

#[test]
fn a_second_message_takes_the_place_of_the_first() {
    let result = JobResult::new(1)
        .with_message("first")
        .with_json("other", &Json::Bool(true))
        .with_message("second");
    assert_eq!(
        result.get_parameters(),
        &vec![
            Parameter::StringParam {
                id: "other".to_string(),
                default: None,
                value: Some("true".to_string()),
            },
            message("second"),
        ]
    );
    assert_eq!(
        result.get_parameter::<String>("message"),
        Ok("second".to_string())
    );
}

#[test]
fn a_message_takes_the_place_of_every_parameter_of_its_name() {
    let mut result = JobResult::new(1);
    result.parameters = vec![
        message("a"),
        Parameter::BooleanParam {
            id: "message".to_string(),
            default: None,
            value: Some(true),
        },
        Parameter::BooleanParam {
            id: "kept".to_string(),
            default: None,
            value: Some(true),
        },
        message("b"),
    ];
    let result = result.with_message("c");
    assert_eq!(
        result.parameters,
        vec![
            Parameter::BooleanParam {
                id: "kept".to_string(),
                default: None,
                value: Some(true),
            },
            message("c"),
        ]
    );
}

#[test]
fn the_error_of_a_request_becomes_the_message() {
    let error = reqwest::Client::new()
        .get("not a url")
        .build()
        .expect_err("a request for no url was built");
    let text = error.to_string();
    assert!(text.starts_with("builder error"));
    let result = JobResult::new(2)
        .with_status(JobStatus::Error)
        .with_message("before")
        .with_error(error);
    assert_eq!(
        result,
        JobResult::new(2)
            .with_status(JobStatus::Error)
            .with_message(&text)
    );
}

#[test]
fn a_processing_error_carries_the_job_and_the_reason() {
    assert_eq!(
        MessageError::processing(6, "why"),
        MessageError::ProcessingError(JobResult {
            job_id: 6,
            status: JobStatus::Error,
            parameters: vec![message("why")],
            destination_paths: vec![],
            execution_duration: Number::Float("0.0".to_string()),
        })
    );
}

#[test]
fn a_session_is_opened_with_this_document() {
    let body = SessionBody {
        session: Session {
            email: "worker@media.io".to_string(),
            password: "open sesame".to_string(),
        },
    };
    assert_eq!(
        body.to_json().to_text(),
        r#"{"session":{"email":"worker@media.io","password":"open sesame"}}"#
    );
}

#[test]
fn the_answers_of_the_credential_service_are_read() {
    let opened = Json::parse(r#"{ "access_token": "abc" }"#).unwrap();
    assert_eq!(
        SessionResponseBody::from_json(&opened),
        Some(SessionResponseBody {
            access_token: "abc".to_string()
        })
    );
    assert_eq!(SessionResponseBody::from_json(&Json::parse("{}").unwrap()), None);
    assert_eq!(
        SessionResponseBody::from_json(&Json::parse(r#"{ "access_token": 1 }"#).unwrap()),
        None
    );

    let answer = Json::parse(
        r#"{ "data": { "id": 4, "key": "k", "value": "v", "inserted_at": "2020-01-01" } }"#,
    )
    .unwrap();
    assert_eq!(
        ValueResponseBody::from_json(&answer),
        Some(ValueResponseBody {
            data: DataResponseBody {
                id: 4,
                key: "k".to_string(),
                value: "v".to_string(),
                inserted_at: "2020-01-01".to_string(),
            }
        })
    );
    for refused in [
        r#"{}"#,
        r#"{ "data": 3 }"#,
        r#"{ "data": { "id": 4294967296, "key": "k", "value": "v", "inserted_at": "t" } }"#,
        r#"{ "data": { "id": 4, "value": "v", "inserted_at": "t" } }"#,
        r#"{ "data": { "id": 4, "key": "k", "inserted_at": "t" } }"#,
        r#"{ "data": { "id": 4, "key": "k", "value": "v" } }"#,
    ] {
        assert_eq!(
            ValueResponseBody::from_json(&Json::parse(refused).unwrap()),
            None
        );
    }
}

#[test]
fn a_job_moves_forward_or_fails() {
    let all = [
        JobStatus::Unknown,
        JobStatus::Initialized,
        JobStatus::Running,
        JobStatus::Completed,
        JobStatus::Error,
    ];
    let allowed = [
        (JobStatus::Unknown, JobStatus::Initialized),
        (JobStatus::Initialized, JobStatus::Running),
        (JobStatus::Running, JobStatus::Completed),
        (JobStatus::Unknown, JobStatus::Error),
        (JobStatus::Initialized, JobStatus::Error),
        (JobStatus::Running, JobStatus::Error),
    ];
    for from in all {
        for to in all {
            assert_eq!(from.may_become(to), allowed.contains(&(from, to)));
        }
    }
}
