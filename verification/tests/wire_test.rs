use mcai_worker_sdk::error::MessageError;
use mcai_worker_sdk::job::{Job, JobResult, JobStatus};
use mcai_worker_sdk::json::{Json, Member, Number};
use mcai_worker_sdk::parameter::{MediaSegment, Parameter, Requirement};
use mcai_worker_sdk::wire::{from_text, to_text, Wire};

fn every_kind() -> Vec<Parameter> {
    vec![
        Parameter::ArrayOfMediaSegmentsParam {
            id: "spans".to_string(),
            default: Some(vec![]),
            value: Some(vec![MediaSegment::new(0, 0), MediaSegment::new(3, u64::MAX)]),
        },
        Parameter::ArrayOfStringsParam {
            id: "names".to_string(),
            default: None,
            value: Some(vec!["a".to_string(), String::new()]),
        },
        Parameter::BooleanParam {
            id: "flag".to_string(),
            default: Some(false),
            value: None,
        },
        Parameter::CredentialParam {
            id: "secret".to_string(),
            default: None,
            value: Some("key".to_string()),
        },
        Parameter::IntegerParam {
            id: "count".to_string(),
            default: Some(i64::MIN),
            value: Some(i64::MAX),
        },
        Parameter::RequirementParam {
            id: "requirements".to_string(),
            default: Some(Requirement { paths: None }),
            value: Some(Requirement {
                paths: Some(vec!["/a".to_string()]),
            }),
        },
        Parameter::StringParam {
            id: "text".to_string(),
            default: None,
            value: None,
        },
        Parameter::OtherParam {
            id: "raw".to_string(),
            kind: "json".to_string(),
            default: Some(Json::Bool(true)),
            value: Some(Json::object(vec![Member::new(
                "deep",
                Json::array(vec![Json::Null, Json::Number(Number::Float("1.5".to_string()))]),
            )])),
        },
    ]
}

#[test]
fn a_job_that_is_written_is_read_back_as_it_was() {
    let job = Job {
        job_id: u64::MAX,
        parameters: every_kind(),
    };
    assert_eq!(Job::from_json(&job.to_json()), Some(job.clone()));
    assert_eq!(Job::new(&to_text(&job)), Ok(job));
}

#[test]
fn a_result_that_is_written_is_read_back_as_it_was() {
    let result = JobResult {
        job_id: 5,
        status: JobStatus::Running,
        parameters: every_kind(),
        destination_paths: vec!["/out/a".to_string(), "/out/b".to_string()],
        execution_duration: Number::Float("12.25".to_string()),
    };
    assert_eq!(JobResult::from_json(&result.to_json()), Some(result.clone()));
    assert_eq!(from_text::<JobResult>(&to_text(&result)), Ok(result));
}

#[test]
fn a_payload_read_written_and_read_again_gives_the_same_job() {
    let payload = r#"{
        "parameters": [
            { "value": "v", "type": "string", "id": "a", "store": "ignored" },
            { "id": "b", "type": "integer", "default": null, "value": 3 },
            { "id": "c", "type": "mystery", "value": [1, {"k": -2.5e3}] }
        ],
        "job_id": 77,
        "comment": "ignored"
    }"#;
    let job = Job::new(payload).unwrap();
    assert_eq!(job.job_id, 77);
    assert_eq!(job.parameters.len(), 3);
    let again = Job::new(&to_text(&job)).unwrap();
    assert_eq!(again, job);
}

#[test]
fn a_job_has_this_form_on_the_wire() {
    let job = Job {
        job_id: 1,
        parameters: vec![
            Parameter::StringParam {
                id: "source_path".to_string(),
                default: None,
                value: Some("file:a.mp4".to_string()),
            },
            Parameter::IntegerParam {
                id: "n".to_string(),
                default: Some(-1),
                value: None,
            },
        ],
    };
    let written: serde_json::Value = serde_json::from_str(&to_text(&job)).unwrap();
    let expected: serde_json::Value = serde_json::from_str(
        r#"{ "job_id": 1, "parameters": [
            { "id": "source_path", "type": "string", "value": "file:a.mp4" },
            { "id": "n", "type": "integer", "default": -1 } ] }"#,
    )
    .unwrap();
    assert_eq!(written, expected);
}

#[test]
fn a_result_has_this_form_on_the_wire() {
    let result = JobResult::new(9)
        .with_status(JobStatus::Error)
        .with_message("stopped");
    let written: serde_json::Value = serde_json::from_str(&to_text(&result)).unwrap();
    let expected: serde_json::Value = serde_json::from_str(
        r#"{ "job_id": 9, "status": "error", "destination_paths": [],
             "execution_duration": 0.0,
             "parameters": [ { "id": "message", "type": "string", "value": "stopped" } ] }"#,
    )
    .unwrap();
    assert_eq!(written, expected);
}

#[test]
fn every_status_has_its_name() {
    for (status, name) in [
        (JobStatus::Unknown, "unknown"),
        (JobStatus::Initialized, "initialized"),
        (JobStatus::Running, "running"),
        (JobStatus::Completed, "completed"),
        (JobStatus::Error, "error"),
    ] {
        assert_eq!(status.to_json(), Json::text(name));
        assert_eq!(JobStatus::from_json(&Json::text(name)), Some(status));
    }
    assert_eq!(JobStatus::from_json(&Json::text("done")), None);
    assert_eq!(JobStatus::from_json(&Json::Null), None);
}

#[test]
fn a_parameter_of_an_unknown_type_is_kept_as_it_is() {
    let payload = r#"{ "id": "x", "type": "matrix", "value": [[1, 2], [3, 4]] }"#;
    let document = Json::parse(payload).unwrap();
    let parameter = Parameter::from_json(&document).unwrap();
    let rows = |a: u64, b: u64| Json::array(vec![Json::unsigned(a), Json::unsigned(b)]);
    assert_eq!(
        parameter,
        Parameter::OtherParam {
            id: "x".to_string(),
            kind: "matrix".to_string(),
            default: None,
            value: Some(Json::array(vec![rows(1, 2), rows(3, 4)])),
        }
    );
    assert_eq!(parameter.to_json().to_text(), r#"{"id":"x","type":"matrix","value":[[1,2],[3,4]]}"#);
}

#[test]
fn a_text_that_is_no_json_is_a_runtime_error() {
    match Job::new("{ job_id: 1 }") {
        Err(MessageError::RuntimeError(message)) => {
            assert!(message.starts_with("unable to parse input message: Error(\"key must be a string\""));
        }
        other => panic!("unexpected outcome: {:?}", other),
    }
    match Job::new("") {
        Err(MessageError::RuntimeError(message)) => {
            assert!(message.starts_with("unable to parse input message: Error(\"EOF while parsing"));
        }
        other => panic!("unexpected outcome: {:?}", other),
    }
}

#[test]
fn a_document_that_is_no_job_is_a_runtime_error() {
    let refused = Err(MessageError::RuntimeError(
        "unable to parse input message: the document does not have the expected form".to_string(),
    ));
    for payload in [
        r#"[]"#,
        r#"{ "parameters": [] }"#,
        r#"{ "job_id": 1 }"#,
        r#"{ "job_id": -1, "parameters": [] }"#,
        r#"{ "job_id": 1.5, "parameters": [] }"#,
        r#"{ "job_id": "1", "parameters": [] }"#,
        r#"{ "job_id": 1, "parameters": {} }"#,
        r#"{ "job_id": 1, "parameters": [ 3 ] }"#,
        r#"{ "job_id": 1, "parameters": [ { "type": "string" } ] }"#,
        r#"{ "job_id": 1, "parameters": [ { "id": "a" } ] }"#,
        r#"{ "job_id": 1, "parameters": [ { "id": "a", "type": "string", "value": 1 } ] }"#,
        r#"{ "job_id": 1, "parameters": [ { "id": "a", "type": "boolean", "default": "x" } ] }"#,
        r#"{ "job_id": 1, "parameters": [ { "id": "a", "type": "integer", "value": 1.5 } ] }"#,
        r#"{ "job_id": 1, "parameters": [ { "id": "a", "type": "array_of_strings", "value": [1] } ] }"#,
        r#"{ "job_id": 1, "parameters": [ { "id": "a", "type": "requirements", "value": [] } ] }"#,
        r#"{ "job_id": 1, "parameters": [ { "id": "a", "type": "array_of_media_segments",
             "value": [ { "start": 2, "end": 1 } ] } ] }"#,
    ] {
        assert_eq!(Job::new(payload), refused, "{}", payload);
    }
}

#[test]
fn a_result_needs_its_job_and_its_status_only() {
    let result = from_text::<JobResult>(r#"{ "job_id": 3, "status": "unknown" }"#).unwrap();
    assert_eq!(result, JobResult::new(3));
    assert!(from_text::<JobResult>(r#"{ "job_id": 3 }"#).is_err());
    assert!(from_text::<JobResult>(r#"{ "status": "unknown" }"#).is_err());
    assert!(from_text::<JobResult>(r#"{ "job_id": 3, "status": "finished" }"#).is_err());
    assert!(
        from_text::<JobResult>(r#"{ "job_id": 3, "status": "error", "destination_paths": 1 }"#)
            .is_err()
    );
}

#[test]
fn numbers_are_read_in_their_three_shapes() {
    let document = Json::parse("[0, 18446744073709551615, -1, 0.5, 1e3]").unwrap();
    assert_eq!(
        document,
        Json::array(vec![
            Json::Number(Number::Unsigned(0)),
            Json::Number(Number::Unsigned(u64::MAX)),
            Json::Number(Number::Signed(-1)),
            Json::Number(Number::Float("0.5".to_string())),
            Json::Number(Number::Float("1000.0".to_string())),
        ])
    );
    assert_eq!(document.to_text(), "[0,18446744073709551615,-1,0.5,1000.0]");
}

#[test]
fn a_document_is_written_as_serde_json_writes_it() {
    let document = Json::object(vec![
        Member::new("b", Json::text("line\nbreak \"quoted\" \u{e9}")),
        Member::new("a", Json::array(vec![Json::Null, Json::Bool(false)])),
    ]);
    let text = document.to_text();
    assert_eq!(text, "{\"a\":[null,false],\"b\":\"line\\nbreak \\\"quoted\\\" \u{e9}\"}");
    let value: serde_json::Value = serde_json::from_str(&text).unwrap();
    assert_eq!(serde_json::to_string(&value).unwrap(), text);
}

#[test]
fn the_members_of_a_document_are_found_by_their_keys() {
    let document = Json::parse(r#"{ "a": 1, "b": null, "c": "x" }"#).unwrap();
    assert_eq!(document.get("a"), Some(&Json::unsigned(1)));
    assert_eq!(document.get("b"), None);
    assert_eq!(document.get("d"), None);
    assert_eq!(document.get("c").and_then(|held| held.as_text()), Some(&"x".to_string()));
    assert_eq!(document.get("a").and_then(|held| held.as_unsigned()), Some(1));
    assert_eq!(Json::unsigned(1).get("a"), None);
    assert_eq!(Json::text("x").as_unsigned(), None);
    assert_eq!(Json::unsigned(1).as_text(), None);
    assert_eq!(Json::Null.as_array(), None);
    let twice = Json::object(vec![
        Member::new("k", Json::unsigned(1)),
        Member::new("k", Json::unsigned(2)),
    ]);
    assert_eq!(twice.get("k"), Some(&Json::unsigned(2)));
}

#[test]
fn a_copy_of_a_document_equals_it() {
    let document = Json::parse(r#"{ "a": [1, -2, 3.5, "x", null, true, {"b": []}] }"#).unwrap();
    assert_eq!(document.clone(), document);
}

#[test]
fn segments_keep_their_bounds() {
    let segment = MediaSegment::new(5, 9);
    assert_eq!(segment.start, 5);
    assert_eq!(segment.end, 9);
    assert_eq!(MediaSegment::from_json(&segment.to_json()), Some(segment));
    let backwards = Json::parse(r#"{ "start": 9, "end": 5 }"#).unwrap();
    assert_eq!(MediaSegment::from_json(&backwards), None);
}

#[test]
fn a_copy_of_a_job_equals_it() {
    let job = Job {
        job_id: 3,
        parameters: every_kind(),
    };
    assert_eq!(job.clone(), job);
    let result = JobResult {
        job_id: 5,
        status: JobStatus::Completed,
        parameters: every_kind(),
        destination_paths: vec!["/out".to_string()],
        execution_duration: Number::Signed(-1),
    };
    assert_eq!(result.clone(), result);
}
