use mcai_worker_sdk::error::MessageError;
use mcai_worker_sdk::job::{JobResult, JobStatus};
use mcai_worker_sdk::media::{
    process, DecodeResult, FramePump, Output, PumpCommand, PumpEvent, PumpReaction, PumpStage,
};
use mcai_worker_sdk::message_exchange::{JobProgression, ResponseMessage};

fn stopped(job_id: u64, message: &str) -> ResponseMessage {
    ResponseMessage::Error(MessageError::ProcessingError(
        JobResult::new(job_id)
            .with_status(JobStatus::Error)
            .with_message(message),
    ))
}

/// Feeds `frames` frames of the stream `stream_index` and returns the
/// percents reported.
fn pump_frames(pump: &mut FramePump, frames: u64, stream_index: usize) -> Vec<u8> {
    let mut reported = vec![];
    for _ in 0..frames {
        let reaction = process(
            pump,
            PumpEvent::Decoded(DecodeResult::Frame { stream_index }),
            false,
        );
        assert_eq!(reaction.command, PumpCommand::Process { stream_index });
        assert_eq!(reaction.progression, None);
        let reaction = process(pump, PumpEvent::Processed, false);
        assert_eq!(reaction.command, PumpCommand::Pull);
        assert_eq!(reaction.terminal, None);
        if let Some(progression) = reaction.progression {
            assert_eq!(progression.job_id, pump.job_id);
            reported.push(progression.progression);
        }
    }
    reported
}

#[test]
fn a_new_pump_has_counted_and_reported_nothing() {
    let pump = FramePump::new(12, Some(30));
    assert_eq!(
        pump,
        FramePump {
            job_id: 12,
            total_duration: Some(30),
            processed_frames: 0,
            last_reported_percent: 0,
            stage: PumpStage::Pulling,
        }
    );
}

#[test]
fn percent_is_the_floor_of_the_share() {
    let mut pump = FramePump::new(1, Some(3));
    assert_eq!(pump_frames(&mut pump, 3, 0), vec![33, 66, 100]);
    assert_eq!(pump.processed_frames, 3);
    assert_eq!(pump.last_reported_percent, 100);
}

#[test]
fn percents_are_reported_once_and_rise() {
    let mut pump = FramePump::new(1, Some(1000));
    let reported = pump_frames(&mut pump, 1000, 0);
    assert_eq!(reported, (1..=100).collect::<Vec<u8>>());
}

#[test]
fn zero_percent_is_never_reported() {
    let mut pump = FramePump::new(1, Some(1000));
    assert_eq!(pump_frames(&mut pump, 9, 0), Vec::<u8>::new());
    assert_eq!(pump_frames(&mut pump, 1, 0), vec![1]);
}

#[test]
fn a_hundred_percent_is_reported_at_most_once() {
    let mut pump = FramePump::new(1, Some(4));
    assert_eq!(pump_frames(&mut pump, 10, 0), vec![25, 50, 75, 100]);
    assert_eq!(pump.processed_frames, 10);
}

#[test]
fn a_source_of_no_length_is_through_at_once() {
    let mut pump = FramePump::new(1, Some(0));
    assert_eq!(pump_frames(&mut pump, 3, 0), vec![100]);
}

#[test]
fn a_source_of_unknown_length_reports_nothing() {
    let mut pump = FramePump::new(1, None);
    assert_eq!(pump_frames(&mut pump, 50, 0), Vec::<u8>::new());
    assert_eq!(pump.processed_frames, 50);
}

#[test]
fn only_the_first_stream_reports() {
    let mut pump = FramePump::new(1, Some(10));
    assert_eq!(pump_frames(&mut pump, 5, 1), Vec::<u8>::new());
    assert_eq!(pump_frames(&mut pump, 1, 0), vec![60]);
}

#[test]
fn huge_counts_do_not_overflow() {
    let mut pump = FramePump {
        job_id: 1,
        total_duration: Some(u64::MAX),
        processed_frames: u64::MAX - 1,
        last_reported_percent: 0,
        stage: PumpStage::Pulling,
    };
    assert_eq!(pump_frames(&mut pump, 1, 0), vec![100]);
    assert_eq!(pump.processed_frames, u64::MAX);
    assert_eq!(pump_frames(&mut pump, 1, 0), Vec::<u8>::new());
    assert_eq!(pump.processed_frames, u64::MAX);
}

#[test]
fn end_of_stream_flushes_once_and_completes() {
    let mut pump = FramePump::new(8, None);
    let reaction = process(&mut pump, PumpEvent::Decoded(DecodeResult::EndOfStream), false);
    assert_eq!(
        reaction,
        PumpReaction {
            progression: None,
            terminal: None,
            command: PumpCommand::Flush
        }
    );
    assert_eq!(pump.stage, PumpStage::Flushing);
    let reaction = process(&mut pump, PumpEvent::Flushed, false);
    assert_eq!(
        reaction,
        PumpReaction {
            progression: None,
            terminal: Some(ResponseMessage::Completed(
                JobResult::new(8).with_status(JobStatus::Completed)
            )),
            command: PumpCommand::Idle,
        }
    );
    assert_eq!(pump.stage, PumpStage::Done);
}

#[test]
fn a_failed_write_ends_in_an_error() {
    let mut pump = FramePump::new(8, None);
    process(&mut pump, PumpEvent::Decoded(DecodeResult::EndOfStream), false);
    let reaction = process(&mut pump, PumpEvent::Failed("disk full".to_string()), false);
    assert_eq!(reaction.terminal, Some(stopped(8, "disk full")));
    assert_eq!(reaction.command, PumpCommand::Idle);
}

#[test]
fn a_failed_pull_ends_in_an_error() {
    let mut pump = FramePump::new(8, None);
    let reaction = process(&mut pump, PumpEvent::Failed("broken pipe".to_string()), false);
    assert_eq!(reaction.terminal, Some(stopped(8, "broken pipe")));
    assert_eq!(pump.stage, PumpStage::Done);
}

#[test]
fn a_stop_is_seen_between_two_frames() {
    let mut pump = FramePump::new(8, Some(2));
    let reaction = process(
        &mut pump,
        PumpEvent::Decoded(DecodeResult::Frame { stream_index: 0 }),
        true,
    );
    assert_eq!(reaction.command, PumpCommand::Process { stream_index: 0 });
    assert_eq!(reaction.terminal, None);
    let reaction = process(&mut pump, PumpEvent::Processed, true);
    assert_eq!(
        reaction,
        PumpReaction {
            progression: Some(JobProgression {
                job_id: 8,
                progression: 50
            }),
            terminal: Some(stopped(8, "stopped")),
            command: PumpCommand::Idle,
        }
    );
}

#[test]
fn a_stop_does_not_keep_the_end_of_stream_from_completing() {
    let mut pump = FramePump::new(8, None);
    let reaction = process(&mut pump, PumpEvent::Decoded(DecodeResult::EndOfStream), true);
    assert_eq!(reaction.command, PumpCommand::Flush);
    let reaction = process(&mut pump, PumpEvent::Flushed, true);
    assert_eq!(
        reaction.terminal,
        Some(ResponseMessage::Completed(
            JobResult::new(8).with_status(JobStatus::Completed)
        ))
    );
}

#[test]
fn a_pump_that_is_done_does_nothing() {
    let mut pump = FramePump::new(8, Some(2));
    process(&mut pump, PumpEvent::Failed("over".to_string()), false);
    let done = pump;
    for event in [
        PumpEvent::Decoded(DecodeResult::Frame { stream_index: 0 }),
        PumpEvent::Decoded(DecodeResult::Nothing),
        PumpEvent::Decoded(DecodeResult::EndOfStream),
        PumpEvent::Processed,
        PumpEvent::Flushed,
        PumpEvent::Failed("again".to_string()),
    ] {
        let reaction = process(&mut pump, event, true);
        assert_eq!(
            reaction,
            PumpReaction {
                progression: None,
                terminal: None,
                command: PumpCommand::Idle
            }
        );
        assert_eq!(pump, done);
    }
}

#[test]
fn an_answer_that_the_pump_does_not_wait_for_changes_nothing() {
    let mut pump = FramePump::new(8, Some(2));
    let before = pump;
    let reaction = process(&mut pump, PumpEvent::Processed, false);
    assert_eq!(reaction.command, PumpCommand::Pull);
    assert_eq!(reaction.terminal, None);
    let reaction = process(&mut pump, PumpEvent::Flushed, false);
    assert_eq!(reaction.command, PumpCommand::Pull);
    assert_eq!(pump, before);

    process(
        &mut pump,
        PumpEvent::Decoded(DecodeResult::Frame { stream_index: 2 }),
        false,
    );
    let waiting = pump;
    let reaction = process(&mut pump, PumpEvent::Decoded(DecodeResult::Nothing), false);
    assert_eq!(reaction.command, PumpCommand::Process { stream_index: 2 });
    assert_eq!(pump, waiting);
}

#[test]
fn an_output_hands_out_what_it_kept_once() {
    let mut output: Output<&str> = Output::new("file:b.out");
    assert_eq!(output.destination, "file:b.out");
    assert_eq!(output.flush(), Vec::<&str>::new());
    output.push("a");
    output.push("b");
    output.push("a");
    assert_eq!(output.flush(), vec!["a", "b", "a"]);
    assert_eq!(output.flush(), Vec::<&str>::new());
    assert_eq!(output.destination, "file:b.out");
    output.push("c");
    assert_eq!(output.flush(), vec!["c"]);
}
