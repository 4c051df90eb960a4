use mcai_worker_sdk::error::MessageError;
use mcai_worker_sdk::job::{Job, JobResult, JobStatus};
use mcai_worker_sdk::media::DecodeResult;
use mcai_worker_sdk::message_exchange::{
    Feedback, JobProgression, OrderMessage, ResponseMessage, StatusReport, SystemInformation,
    WorkerActivity,
};
use mcai_worker_sdk::parameter::{Parameter, Requirement};
use mcai_worker_sdk::processor::{
    get_status_feedback, Command, MediaProcess, ProcessEvent, Reaction, Stage,
};

fn system() -> SystemInformation {
    SystemInformation {
        hostname: "worker-1".to_string(),
        number_of_processors: 8,
        total_memory: 16_000_000,
    }
}

fn string_parameter(id: &str, value: &str) -> Parameter {
    Parameter::StringParam {
        id: id.to_string(),
        default: None,
        value: Some(value.to_string()),
    }
}

fn media_job(job_id: u64) -> Job {
    Job {
        job_id,
        parameters: vec![
            string_parameter("source_path", "file:a.mp4"),
            string_parameter("destination_path", "file:b.out"),
        ],
    }
}

fn failed(job_id: u64, message: &str) -> ResponseMessage {
    ResponseMessage::Error(MessageError::ProcessingError(
        JobResult::new(job_id)
            .with_status(JobStatus::Error)
            .with_message(message),
    ))
}

fn progression(job_id: u64, progression: u8) -> ResponseMessage {
    ResponseMessage::Feedback(Feedback::Progression(JobProgression {
        job_id,
        progression,
    }))
}

/// Takes a new processor through the initialization of `job`, with a
/// source of the length `duration`, and returns all it answered.
fn initialize(processor: &mut MediaProcess, job: Job, duration: Option<u64>) -> Vec<ResponseMessage> {
    let mut responses = vec![];
    let reaction = processor.handle(ProcessEvent::Order(OrderMessage::InitProcess(job)));
    assert_eq!(reaction.command, Command::CheckRequirements(vec![]));
    responses.extend(reaction.responses);
    let reaction = processor.handle(ProcessEvent::Requirements(vec![]));
    assert_eq!(
        reaction.command,
        Command::Open {
            source: "file:a.mp4".to_string(),
            destination: "file:b.out".to_string()
        }
    );
    responses.extend(reaction.responses);
    let reaction = processor.handle(ProcessEvent::Opened(duration));
    assert_eq!(reaction.command, Command::Continue);
    responses.extend(reaction.responses);
    responses
}

/// Feeds one frame of the first stream through a running processor.
fn frame(processor: &mut MediaProcess) -> Reaction {
    let reaction = processor.handle(ProcessEvent::Decoded(DecodeResult::Frame { stream_index: 0 }));
    assert_eq!(reaction.command, Command::Process { stream_index: 0 });
    assert!(reaction.responses.is_empty());
    processor.handle(ProcessEvent::Processed)
}

#[test]
fn happy_path_finite_source() {
    // A source of 10 s at 100 frames a second: 1000 frames.
    let mut processor = MediaProcess::new(system());
    let mut responses = initialize(&mut processor, media_job(1), Some(1000));
    assert_eq!(processor.get_current_job_id(), Some(1));
    assert_eq!(processor.status, JobStatus::Initialized);

    let reaction = processor.handle(ProcessEvent::Order(OrderMessage::StartProcess(media_job(1))));
    assert_eq!(reaction.command, Command::Pull);
    assert!(reaction.responses.is_empty());
    assert_eq!(processor.status, JobStatus::Running);

    let mut flushes = 0;
    for _ in 0..1000 {
        let reaction = frame(&mut processor);
        assert_eq!(reaction.command, Command::Pull);
        responses.extend(reaction.responses);
    }
    let reaction = processor.handle(ProcessEvent::Decoded(DecodeResult::EndOfStream));
    if reaction.command == Command::Flush {
        flushes += 1;
    }
    responses.extend(reaction.responses);
    let reaction = processor.handle(ProcessEvent::Flushed);
    assert_eq!(reaction.command, Command::Continue);
    responses.extend(reaction.responses);

    let mut expected = vec![ResponseMessage::Initialized(
        JobResult::new(1).with_status(JobStatus::Initialized),
    )];
    for percent in 1..=100u8 {
        expected.push(progression(1, percent));
    }
    expected.push(ResponseMessage::Completed(
        JobResult::new(1).with_status(JobStatus::Completed),
    ));
    assert_eq!(responses, expected);
    assert_eq!(flushes, 1);
    assert_eq!(processor.status, JobStatus::Completed);
    assert_eq!(processor.get_current_job_id(), None);
}

#[test]
fn live_source_without_duration() {
    let mut processor = MediaProcess::new(system());
    let mut responses = initialize(&mut processor, media_job(1), None);
    processor.handle(ProcessEvent::Order(OrderMessage::StartProcess(media_job(1))));
    for _ in 0..50 {
        responses.extend(frame(&mut processor).responses);
    }
    responses.extend(
        processor
            .handle(ProcessEvent::Decoded(DecodeResult::EndOfStream))
            .responses,
    );
    responses.extend(processor.handle(ProcessEvent::Flushed).responses);
    assert_eq!(
        responses,
        vec![
            ResponseMessage::Initialized(JobResult::new(1).with_status(JobStatus::Initialized)),
            ResponseMessage::Completed(JobResult::new(1).with_status(JobStatus::Completed)),
        ]
    );
}

#[test]
fn user_callback_error_on_frame_five() {
    let mut processor = MediaProcess::new(system());
    let mut responses = initialize(&mut processor, media_job(1), Some(10));
    processor.handle(ProcessEvent::Order(OrderMessage::StartProcess(media_job(1))));
    let mut commands = vec![];
    for _ in 0..4 {
        let reaction = frame(&mut processor);
        commands.push(reaction.command);
        responses.extend(reaction.responses);
    }
    let reaction = processor.handle(ProcessEvent::Decoded(DecodeResult::Frame { stream_index: 0 }));
    commands.push(reaction.command);
    let reaction = processor.handle(ProcessEvent::Failed("the frame is upside down".to_string()));
    commands.push(reaction.command);
    responses.extend(reaction.responses);

    assert_eq!(
        responses,
        vec![
            ResponseMessage::Initialized(JobResult::new(1).with_status(JobStatus::Initialized)),
            progression(1, 10),
            progression(1, 20),
            progression(1, 30),
            progression(1, 40),
            failed(1, "the frame is upside down"),
        ]
    );
    match responses.last() {
        Some(ResponseMessage::Error(MessageError::ProcessingError(result))) => {
            let message = result.get_parameter::<String>("message").unwrap();
            assert!(message.contains("upside down"));
        }
        _ => panic!("the job did not end in an error"),
    }
    assert!(!commands.contains(&Command::Flush));
    assert_eq!(processor.status, JobStatus::Error);
    assert_eq!(processor.get_current_job_id(), None);
}

#[test]
fn start_without_init_is_refused() {
    let mut processor = MediaProcess::new(system());
    let reaction = processor.handle(ProcessEvent::Order(OrderMessage::StartProcess(media_job(7))));
    assert_eq!(
        reaction.responses,
        vec![failed(
            7,
            "Process cannot be started, it must be initialized before"
        )]
    );
    assert_eq!(reaction.command, Command::Continue);
    assert_eq!(processor.status, JobStatus::Error);
    assert_eq!(processor.get_current_job_id(), None);
}

#[test]
fn stop_mid_flight() {
    let mut processor = MediaProcess::new(system());
    let mut responses = initialize(&mut processor, media_job(1), Some(100));
    processor.handle(ProcessEvent::Order(OrderMessage::StartProcess(media_job(1))));
    for _ in 0..37 {
        responses.extend(frame(&mut processor).responses);
    }
    assert_eq!(responses.last(), Some(&progression(1, 37)));

    // The order comes while the next frame is being decoded.
    let reaction = processor.handle(ProcessEvent::Order(OrderMessage::StopProcess(media_job(1))));
    assert!(reaction.responses.is_empty());
    assert_eq!(reaction.command, Command::Continue);
    assert_eq!(processor.status, JobStatus::Running);

    let after_stop = frame(&mut processor);
    assert_eq!(after_stop.command, Command::Continue);
    assert_eq!(
        after_stop.responses,
        vec![progression(1, 38), failed(1, "stopped")]
    );
    assert_eq!(processor.status, JobStatus::Error);
    assert_eq!(processor.get_current_job_id(), None);
}

#[test]
fn stop_between_pulls_ends_without_flush() {
    let mut processor = MediaProcess::new(system());
    initialize(&mut processor, media_job(1), Some(100));
    processor.handle(ProcessEvent::Order(OrderMessage::StartProcess(media_job(1))));
    processor.handle(ProcessEvent::Order(OrderMessage::StopProcess(media_job(1))));
    let reaction = processor.handle(ProcessEvent::Decoded(DecodeResult::Nothing));
    assert_eq!(reaction.responses, vec![failed(1, "stopped")]);
    assert_eq!(reaction.command, Command::Continue);
}

#[test]
fn stop_of_a_job_that_does_not_run_is_refused() {
    let mut processor = MediaProcess::new(system());
    let reaction = processor.handle(ProcessEvent::Order(OrderMessage::StopProcess(media_job(3))));
    assert_eq!(
        reaction.responses,
        vec![failed(3, "cannot stop a non-running job")]
    );
    assert_eq!(processor.status, JobStatus::Unknown);

    initialize(&mut processor, media_job(3), None);
    let reaction = processor.handle(ProcessEvent::Order(OrderMessage::StopProcess(media_job(3))));
    assert_eq!(
        reaction.responses,
        vec![failed(3, "cannot stop a non-running job")]
    );
    assert_eq!(processor.status, JobStatus::Initialized);
    assert_eq!(processor.get_current_job_id(), Some(3));
}

#[test]
fn init_without_source_path_fails_with_parameter_error() {
    let mut processor = MediaProcess::new(system());
    let job = Job {
        job_id: 4,
        parameters: vec![string_parameter("destination_path", "file:b.out")],
    };
    let reaction = processor.handle(ProcessEvent::Order(OrderMessage::InitProcess(job)));
    assert_eq!(
        reaction.responses,
        vec![ResponseMessage::Error(MessageError::ParameterError(
            mcai_worker_sdk::error::ParameterError::Missing
        ))]
    );
    assert_eq!(processor.status, JobStatus::Error);
    assert_eq!(processor.stage, Stage::Waiting);
    assert_eq!(processor.get_current_job_id(), None);
}

#[test]
fn init_without_destination_path_fails_with_parameter_error() {
    let mut processor = MediaProcess::new(system());
    let job = Job {
        job_id: 4,
        parameters: vec![
            string_parameter("source_path", "file:a.mp4"),
            Parameter::BooleanParam {
                id: "destination_path".to_string(),
                default: None,
                value: Some(true),
            },
        ],
    };
    let reaction = processor.handle(ProcessEvent::Order(OrderMessage::InitProcess(job)));
    assert_eq!(
        reaction.responses,
        vec![ResponseMessage::Error(MessageError::ParameterError(
            mcai_worker_sdk::error::ParameterError::WrongType
        ))]
    );
    assert_eq!(processor.status, JobStatus::Error);
}

#[test]
fn init_with_a_missing_required_file_fails() {
    let mut processor = MediaProcess::new(system());
    let mut job = media_job(5);
    job.parameters.push(Parameter::RequirementParam {
        id: "requirements".to_string(),
        default: None,
        value: Some(Requirement {
            paths: Some(vec!["/data/a.wav".to_string(), "/data/b.wav".to_string()]),
        }),
    });
    let reaction = processor.handle(ProcessEvent::Order(OrderMessage::InitProcess(job)));
    assert_eq!(
        reaction.command,
        Command::CheckRequirements(vec!["/data/a.wav".to_string(), "/data/b.wav".to_string()])
    );
    assert_eq!(processor.stage, Stage::Checking);
    let reaction = processor.handle(ProcessEvent::Requirements(vec!["/data/a.wav".to_string()]));
    assert_eq!(
        reaction.responses,
        vec![ResponseMessage::Error(MessageError::RequirementsError(
            "Warning: Required file does not exists: \"/data/b.wav\"".to_string()
        ))]
    );
    assert_eq!(reaction.command, Command::Continue);
    assert_eq!(processor.status, JobStatus::Error);
    assert_eq!(processor.stage, Stage::Waiting);
    assert_eq!(processor.get_current_job_id(), None);
}

#[test]
fn a_failed_initialization_keeps_the_job_in_hand() {
    let mut processor = MediaProcess::new(system());
    initialize(&mut processor, media_job(1), None);
    processor.handle(ProcessEvent::Order(OrderMessage::InitProcess(media_job(2))));
    processor.handle(ProcessEvent::Requirements(vec![]));
    let reaction = processor.handle(ProcessEvent::Failed("no such file".to_string()));
    assert_eq!(reaction.responses, vec![failed(2, "no such file")]);
    assert_eq!(processor.status, JobStatus::Error);
    assert_eq!(processor.get_current_job_id(), Some(1));
}

#[test]
fn orders_for_jobs_wait_while_a_job_runs() {
    let mut processor = MediaProcess::new(system());
    initialize(&mut processor, media_job(1), None);
    processor.handle(ProcessEvent::Order(OrderMessage::StartProcess(media_job(1))));
    let before = processor.clone();
    let order = OrderMessage::InitProcess(media_job(2));
    let reaction = processor.handle(ProcessEvent::Order(order.clone()));
    assert!(reaction.responses.is_empty());
    assert_eq!(reaction.command, Command::Postpone(order));
    let order = OrderMessage::StartProcess(media_job(2));
    let reaction = processor.handle(ProcessEvent::Order(order.clone()));
    assert!(reaction.responses.is_empty());
    assert_eq!(reaction.command, Command::Postpone(order));
    assert_eq!(processor, before);
}

#[test]
fn an_answer_to_nothing_is_ignored() {
    let mut processor = MediaProcess::new(system());
    let before = processor.clone();
    for event in [
        ProcessEvent::Requirements(vec![]),
        ProcessEvent::Opened(Some(3)),
        ProcessEvent::Decoded(DecodeResult::EndOfStream),
        ProcessEvent::Processed,
        ProcessEvent::Flushed,
        ProcessEvent::Failed("late".to_string()),
    ] {
        let reaction = processor.handle(event);
        assert!(reaction.responses.is_empty());
        assert_eq!(reaction.command, Command::Continue);
        assert_eq!(processor, before);
    }
}

#[test]
fn one_terminal_response_for_each_started_job() {
    let mut processor = MediaProcess::new(system());
    let mut terminals = vec![];
    for job_id in 1..=3u64 {
        initialize(&mut processor, media_job(job_id), Some(2));
        processor.handle(ProcessEvent::Order(OrderMessage::StartProcess(media_job(job_id))));
        let events = vec![
            ProcessEvent::Decoded(DecodeResult::Frame { stream_index: 0 }),
            ProcessEvent::Order(OrderMessage::Status),
            ProcessEvent::Processed,
            ProcessEvent::Decoded(DecodeResult::Nothing),
            ProcessEvent::Decoded(DecodeResult::EndOfStream),
            ProcessEvent::Flushed,
            ProcessEvent::Flushed,
            ProcessEvent::Failed("too late".to_string()),
        ];
        for event in events {
            for response in processor.handle(event).responses {
                if response.is_terminal() {
                    terminals.push(response);
                }
            }
        }
    }
    assert_eq!(
        terminals,
        vec![
            ResponseMessage::Completed(JobResult::new(1).with_status(JobStatus::Completed)),
            ResponseMessage::Completed(JobResult::new(2).with_status(JobStatus::Completed)),
            ResponseMessage::Completed(JobResult::new(3).with_status(JobStatus::Completed)),
        ]
    );
}

#[test]
fn status_reports_the_job_in_hand_and_none_after_its_end() {
    let mut processor = MediaProcess::new(system());
    let idle = ResponseMessage::Feedback(Feedback::Status(StatusReport {
        activity: WorkerActivity::Idle,
        system: system(),
        job_result: None,
    }));
    let reaction = processor.handle(ProcessEvent::Order(OrderMessage::Status));
    assert_eq!(reaction.responses, vec![idle]);
    assert_eq!(reaction.command, Command::Continue);

    initialize(&mut processor, media_job(9), None);
    let reaction = processor.handle(ProcessEvent::Order(OrderMessage::Status));
    assert_eq!(
        reaction.responses,
        vec![ResponseMessage::Feedback(Feedback::Status(StatusReport {
            activity: WorkerActivity::Busy,
            system: system(),
            job_result: Some(JobResult::new(9).with_status(JobStatus::Initialized)),
        }))]
    );

    processor.handle(ProcessEvent::Order(OrderMessage::StartProcess(media_job(9))));
    let reaction = processor.handle(ProcessEvent::Order(OrderMessage::Status));
    assert_eq!(
        reaction.responses,
        vec![ResponseMessage::Feedback(Feedback::Status(StatusReport {
            activity: WorkerActivity::Busy,
            system: system(),
            job_result: Some(JobResult::new(9).with_status(JobStatus::Running)),
        }))]
    );

    processor.handle(ProcessEvent::Decoded(DecodeResult::EndOfStream));
    processor.handle(ProcessEvent::Flushed);
    let reaction = processor.handle(ProcessEvent::Order(OrderMessage::Status));
    assert_eq!(
        reaction.responses,
        vec![ResponseMessage::Feedback(Feedback::Status(StatusReport {
            activity: WorkerActivity::Idle,
            system: system(),
            job_result: None,
        }))]
    );
    assert_eq!(processor.get_current_job_id(), None);
}

#[test]
fn stop_worker_reports_and_exits() {
    let mut processor = MediaProcess::new(system());
    assert!(processor.keep_running);
    let reaction = processor.handle(ProcessEvent::Order(OrderMessage::StopWorker));
    assert_eq!(reaction.command, Command::Exit);
    assert_eq!(reaction.responses, vec![processor.get_status_feedback()]);
    assert!(!processor.keep_running);
    assert_eq!(processor.status, JobStatus::Unknown);
}

#[test]
fn status_feedback_is_busy_while_a_job_is_held() {
    for (status, activity) in [
        (JobStatus::Unknown, WorkerActivity::Idle),
        (JobStatus::Initialized, WorkerActivity::Busy),
        (JobStatus::Running, WorkerActivity::Busy),
        (JobStatus::Completed, WorkerActivity::Idle),
        (JobStatus::Error, WorkerActivity::Idle),
    ] {
        let job_result = Some(JobResult::new(2).with_status(status));
        assert_eq!(
            get_status_feedback(status, job_result.clone(), system()),
            ResponseMessage::Feedback(Feedback::Status(StatusReport {
                activity,
                system: system(),
                job_result,
            }))
        );
    }
}

#[test]
fn a_new_snapshot_of_the_machine_is_reported() {
    let mut processor = MediaProcess::new(system());
    let mut newer = system();
    newer.total_memory = 1;
    processor.update_system_information(newer.clone());
    assert_eq!(
        processor.get_status_feedback(),
        get_status_feedback(JobStatus::Unknown, None, newer)
    );
}
