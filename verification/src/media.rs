//! The frame pump: it couples the source of a job to the callback of the
//! user and to the output, one event at a time, and reports progress.

use crate::error::{MessageError, MessageErrorView};
use crate::job::{JobResult, JobResultView, JobStatus};
use crate::message_exchange::{JobProgression, ResponseMessage, ResponseMessageView};
use vstd::prelude::*;

verus! {

/// What one pull on a source gives.
#[derive(Clone, Copy, Debug, PartialEq, Eq, Structural)]
pub enum DecodeResult {
    /// A frame of the stream `stream_index` was decoded.
    Frame { stream_index: usize },
    /// The decoder needs more input: pull again.
    Nothing,
    /// The source is exhausted.
    EndOfStream,
}

/// What the pump is waiting for.
#[derive(Clone, Copy, Debug, PartialEq, Eq, Structural)]
pub enum PumpStage {
    /// The next decode result.
    Pulling,
    /// The end of the callback on a frame of the stream `stream_index`.
    Processing { stream_index: usize },
    /// The end of the write of the output.
    Flushing,
    /// Nothing: the pump has given its terminal response.
    Done,
}

/// The outside work a pump asks for.
#[derive(Clone, Copy, Debug, PartialEq, Eq, Structural)]
pub enum PumpCommand {
    /// Pull the next decode result from the source.
    Pull,
    /// Hand the frame just decoded to the callback and keep what it returns.
    Process { stream_index: usize },
    /// Write what was kept to the destination.
    Flush,
    /// Nothing is left to do.
    Idle,
}

/// How the outside work that a pump asked for ended.
#[derive(Clone, Debug, PartialEq, Eq)]
pub enum PumpEvent {
    /// A pull returned.
    Decoded(DecodeResult),
    /// The callback returned and its artifact was kept.
    Processed,
    /// The output was written.
    Flushed,
    /// The work failed, for the reason given.
    Failed(String),
}

/// Mathematical model of [`PumpEvent`].
pub enum PumpEventView {
    Decoded(DecodeResult),
    Processed,
    Flushed,
    Failed(Seq<char>),
}

impl View for PumpEvent {
    type V = PumpEventView;

    open spec fn view(&self) -> PumpEventView {
        match self {
            PumpEvent::Decoded(result) => PumpEventView::Decoded(*result),
            PumpEvent::Processed => PumpEventView::Processed,
            PumpEvent::Flushed => PumpEventView::Flushed,
            PumpEvent::Failed(reason) => PumpEventView::Failed(reason@),
        }
    }
}

/// What a pump does on an event: the progress it reports, the response with
/// which it ends, and the work it asks for next.
#[derive(Clone, Debug, PartialEq, Eq)]
pub struct PumpReaction {
    pub progression: Option<JobProgression>,
    pub terminal: Option<ResponseMessage>,
    pub command: PumpCommand,
}

/// Mathematical model of [`PumpReaction`].
pub struct PumpReactionView {
    pub progression: Option<JobProgression>,
    pub terminal: Option<ResponseMessageView>,
    pub command: PumpCommand,
}

impl View for PumpReaction {
    type V = PumpReactionView;

    open spec fn view(&self) -> PumpReactionView {
        PumpReactionView {
            progression: self.progression,
            terminal: self.terminal.deep_view(),
            command: self.command,
        }
    }
}

/// What the callback has made of the frames of a job, kept until the end
/// of the source and then written to the destination.
#[derive(Clone, Debug, PartialEq, Eq)]
pub struct Output<A> {
    pub destination: String,
    pub artifacts: Vec<A>,
}

impl<A> Output<A> {
    /// An output for `destination` that keeps nothing yet.
    pub fn new(destination: &str) -> (output: Output<A>)
        ensures
            output.destination@ == destination@,
            output.artifacts@ == Seq::<A>::empty(),
    {
        Output { destination: String::from_str(destination), artifacts: Vec::new() }
    }

    /// Keeps `artifact` after those kept before.
    pub fn push(&mut self, artifact: A)
        ensures
            final(self).destination == old(self).destination,
            final(self).artifacts@ == old(self).artifacts@.push(artifact),
    {
        self.artifacts.push(artifact);
    }

    /// Hands out what was kept, in the order in which it came, for it to
    /// be written, and keeps nothing: a second call hands out nothing.
    pub fn flush(&mut self) -> (kept: Vec<A>)
        ensures
            kept@ == old(self).artifacts@,
            final(self).destination == old(self).destination,
            final(self).artifacts@ == Seq::<A>::empty(),
    {
        let mut kept: Vec<A> = Vec::new();
        core::mem::swap(&mut self.artifacts, &mut kept);
        kept
    }
}

/// The share of `total` that `processed` is, in whole percent and at most 100.
/// A source of no length is through at its first frame.
pub open spec fn percent(processed: u64, total: u64) -> int {
    if total == 0 || 100 * processed / (total as int) >= 100 {
        100
    } else {
        100 * processed / (total as int)
    }
}

/// Couples a source to a callback and an output, one event at a time, and
/// reports progress in whole percent, each value once.
#[derive(Clone, Copy, Debug, PartialEq, Eq)]
pub struct FramePump {
    pub job_id: u64,
    /// Length of the source in frames, where the source knows it.
    pub total_duration: Option<u64>,
    pub processed_frames: u64,
    pub last_reported_percent: u8,
    pub stage: PumpStage,
}

impl FramePump {
    /// No percent above 100 was reported.
    pub open spec fn is_valid(self) -> bool {
        self.last_reported_percent <= 100
    }

    /// The pump of a job that has not begun.
    pub open spec fn spec_new(job_id: u64, total_duration: Option<u64>) -> FramePump {
        FramePump {
            job_id,
            total_duration,
            processed_frames: 0,
            last_reported_percent: 0,
            stage: PumpStage::Pulling,
        }
    }

    /// The work that the pump waits for the end of.
    pub open spec fn awaited(self) -> PumpCommand {
        match self.stage {
            PumpStage::Pulling => PumpCommand::Pull,
            PumpStage::Processing { stream_index } => PumpCommand::Process { stream_index },
            PumpStage::Flushing => PumpCommand::Flush,
            PumpStage::Done => PumpCommand::Idle,
        }
    }

    /// The percent to report once a frame of `stream_index` is through: only
    /// for the first stream of a source of known length, and only a value
    /// above the last one reported.
    pub open spec fn due(self, stream_index: usize) -> Option<u8> {
        match self.total_duration {
            Some(total) if stream_index == 0 && percent(self.processed_frames, total)
                > self.last_reported_percent => Some(percent(self.processed_frames, total) as u8),
            _ => None,
        }
    }

    /// The event changes nothing.
    pub open spec fn ignore(self) -> (FramePump, PumpReactionView) {
        (self, PumpReactionView { progression: None, terminal: None, command: self.awaited() })
    }

    /// The pump ends with `terminal`.
    pub open spec fn end(
        self,
        progression: Option<JobProgression>,
        terminal: ResponseMessageView,
    ) -> (FramePump, PumpReactionView) {
        (
            FramePump { stage: PumpStage::Done, ..self },
            PumpReactionView { progression, terminal: Some(terminal), command: PumpCommand::Idle },
        )
    }

    /// The pump ends with an error for the reason `reason`.
    pub open spec fn fail(self, reason: Seq<char>) -> (FramePump, PumpReactionView) {
        self.end(
            None,
            ResponseMessageView::Error(MessageErrorView::processing(self.job_id, reason)),
        )
    }

    /// Between two frames: the pump stops if it was asked to, else pulls.
    pub open spec fn resume(
        self,
        progression: Option<JobProgression>,
        stop_requested: bool,
    ) -> (FramePump, PumpReactionView) {
        if stop_requested {
            self.end(
                progression,
                ResponseMessageView::Error(MessageErrorView::processing(self.job_id, "stopped"@)),
            )
        } else {
            (
                FramePump { stage: PumpStage::Pulling, ..self },
                PumpReactionView { progression, terminal: None, command: PumpCommand::Pull },
            )
        }
    }

    /// The pump's transition function.
    pub open spec fn next(self, event: PumpEventView, stop_requested: bool) -> (
        FramePump,
        PumpReactionView,
    ) {
        match (self.stage, event) {
            (PumpStage::Pulling, PumpEventView::Decoded(DecodeResult::Frame { stream_index })) => (
                FramePump {
                    processed_frames: if self.processed_frames < u64::MAX {
                        (self.processed_frames + 1) as u64
                    } else {
                        self.processed_frames
                    },
                    stage: PumpStage::Processing { stream_index },
                    ..self
                },
                PumpReactionView {
                    progression: None,
                    terminal: None,
                    command: PumpCommand::Process { stream_index },
                },
            ),
            (PumpStage::Pulling, PumpEventView::Decoded(DecodeResult::Nothing)) => self.resume(
                None,
                stop_requested,
            ),
            (PumpStage::Pulling, PumpEventView::Decoded(DecodeResult::EndOfStream)) => (
                FramePump { stage: PumpStage::Flushing, ..self },
                PumpReactionView { progression: None, terminal: None, command: PumpCommand::Flush },
            ),
            (PumpStage::Processing { stream_index }, PumpEventView::Processed) => {
                match self.due(stream_index) {
                    Some(reached) => FramePump { last_reported_percent: reached, ..self }.resume(
                        Some(JobProgression { job_id: self.job_id, progression: reached }),
                        stop_requested,
                    ),
                    None => self.resume(None, stop_requested),
                }
            },
            (PumpStage::Flushing, PumpEventView::Flushed) => self.end(
                None,
                ResponseMessageView::Completed(
                    JobResultView::fresh(self.job_id).with_status(JobStatus::Completed),
                ),
            ),
            (PumpStage::Done, _) => self.ignore(),
            (_, PumpEventView::Failed(reason)) => self.fail(reason),
            _ => self.ignore(),
        }
    }

    /// The pump of a job that has not begun: no frame is counted, no
    /// percent reported, and the first pull is awaited.
    pub fn new(job_id: u64, total_duration: Option<u64>) -> (pump: FramePump)
        ensures
            pump == FramePump::spec_new(job_id, total_duration),
            pump.is_valid(),
    {
        FramePump {
            job_id,
            total_duration,
            processed_frames: 0,
            last_reported_percent: 0,
            stage: PumpStage::Pulling,
        }
    }

    /// Computes [`FramePump::due`].
    fn progress(&self, stream_index: usize) -> (reached: Option<u8>)
        ensures
            reached == self.due(stream_index),
    {
        match self.total_duration {
            Some(total) if stream_index == 0 => {
                let reached: u8 = if total == 0 {
                    100
                } else {
                    let share: u128 = 100 * (self.processed_frames as u128) / (total as u128);
                    if share >= 100 {
                        100
                    } else {
                        share as u8
                    }
                };
                if reached > self.last_reported_percent {
                    Some(reached)
                } else {
                    None
                }
            },
            _ => None,
        }
    }

    /// Ends the pump with `terminal`.
    fn finish(
        &mut self,
        progression: Option<JobProgression>,
        terminal: ResponseMessage,
    ) -> (reaction: PumpReaction)
        ensures
            (*final(self), reaction@) == old(self).end(progression, terminal@),
    {
        self.stage = PumpStage::Done;
        PumpReaction { progression, terminal: Some(terminal), command: PumpCommand::Idle }
    }

    /// Goes on to the next pull, or stops where a stop was asked for.
    fn go_on(&mut self, progression: Option<JobProgression>, stop_requested: bool) -> (reaction:
        PumpReaction)
        ensures
            (*final(self), reaction@) == old(self).resume(progression, stop_requested),
    {
        if stop_requested {
            let terminal = ResponseMessage::Error(MessageError::processing(self.job_id, "stopped"));
            self.finish(progression, terminal)
        } else {
            self.stage = PumpStage::Pulling;
            PumpReaction { progression, terminal: None, command: PumpCommand::Pull }
        }
    }

    /// Changes nothing, and asks again for the work that is awaited.
    fn stay(&self) -> (reaction: PumpReaction)
        ensures
            (*self, reaction@) == self.ignore(),
    {
        let command = match self.stage {
            PumpStage::Pulling => PumpCommand::Pull,
            PumpStage::Processing { stream_index } => PumpCommand::Process { stream_index },
            PumpStage::Flushing => PumpCommand::Flush,
            PumpStage::Done => PumpCommand::Idle,
        };
        PumpReaction { progression: None, terminal: None, command }
    }
}

/// Takes the pump one step on: `event` says how the work that the pump last
/// asked for ended, `stop_requested` whether the job was asked to stop.
pub fn process(pump: &mut FramePump, event: PumpEvent, stop_requested: bool) -> (reaction:
    PumpReaction)
    ensures
        (*final(pump), reaction@) == old(pump).next(event@, stop_requested),
{
    match (pump.stage, event) {
        (PumpStage::Pulling, PumpEvent::Decoded(DecodeResult::Frame { stream_index })) => {
            if pump.processed_frames < u64::MAX {
                pump.processed_frames = pump.processed_frames + 1;
            }
            pump.stage = PumpStage::Processing { stream_index };
            PumpReaction {
                progression: None,
                terminal: None,
                command: PumpCommand::Process { stream_index },
            }
        },
        (PumpStage::Pulling, PumpEvent::Decoded(DecodeResult::Nothing)) => pump.go_on(
            None,
            stop_requested,
        ),
        (PumpStage::Pulling, PumpEvent::Decoded(DecodeResult::EndOfStream)) => {
            pump.stage = PumpStage::Flushing;
            PumpReaction { progression: None, terminal: None, command: PumpCommand::Flush }
        },
        (PumpStage::Processing { stream_index }, PumpEvent::Processed) => {
            match pump.progress(stream_index) {
                Some(reached) => {
                    pump.last_reported_percent = reached;
                    pump.go_on(
                        Some(JobProgression { job_id: pump.job_id, progression: reached }),
                        stop_requested,
                    )
                },
                None => pump.go_on(None, stop_requested),
            }
        },
        (PumpStage::Flushing, PumpEvent::Flushed) => {
            let terminal = ResponseMessage::Completed(
                JobResult::new(pump.job_id).with_status(JobStatus::Completed),
            );
            pump.finish(None, terminal)
        },
        (PumpStage::Done, _) => pump.stay(),
        (_, PumpEvent::Failed(reason)) => {
            let terminal = ResponseMessage::Error(
                MessageError::processing(pump.job_id, reason.as_str()),
            );
            pump.finish(None, terminal)
        },
        _ => pump.stay(),
    }
}

/// One step's input: how the awaited work ended, and whether the job had
/// been asked to stop by then.
pub struct PumpInput {
    pub event: PumpEventView,
    pub stop_requested: bool,
}

impl FramePump {
    /// The pump after `inputs`.
    pub open spec fn run(self, inputs: Seq<PumpInput>) -> FramePump
        decreases inputs.len(),
    {
        if inputs.len() == 0 {
            self
        } else {
            self.next(inputs[0].event, inputs[0].stop_requested).0.run(inputs.drop_first())
        }
    }

    /// The percents that the pump reports over `inputs`, in their order.
    pub open spec fn reports(self, inputs: Seq<PumpInput>) -> Seq<u8>
        decreases inputs.len(),
    {
        if inputs.len() == 0 {
            Seq::empty()
        } else {
            let (after, reaction) = self.next(inputs[0].event, inputs[0].stop_requested);
            match reaction.progression {
                Some(progression) => seq![progression.progression] + after.reports(
                    inputs.drop_first(),
                ),
                None => after.reports(inputs.drop_first()),
            }
        }
    }

    /// The terminal responses that the pump gives over `inputs`, in their order.
    pub open spec fn terminals(self, inputs: Seq<PumpInput>) -> Seq<ResponseMessageView>
        decreases inputs.len(),
    {
        if inputs.len() == 0 {
            Seq::empty()
        } else {
            let (after, reaction) = self.next(inputs[0].event, inputs[0].stop_requested);
            match reaction.terminal {
                Some(terminal) => seq![terminal] + after.terminals(inputs.drop_first()),
                None => after.terminals(inputs.drop_first()),
            }
        }
    }

    /// How often the pump asks for the output to be written over `inputs`.
    pub open spec fn flushes(self, inputs: Seq<PumpInput>) -> nat
        decreases inputs.len(),
    {
        if inputs.len() == 0 {
            0
        } else {
            let (after, reaction) = self.next(inputs[0].event, inputs[0].stop_requested);
            if reaction.command == PumpCommand::Flush && after.stage != self.stage {
                1 + after.flushes(inputs.drop_first())
            } else {
                after.flushes(inputs.drop_first())
            }
        }
    }

    /// Whatever happens to a pump, the percents it reports rise strictly,
    /// lie above the last one it had reported before, and never pass 100.
    /// Of a new pump they lie between 1 and 100.
    pub proof fn lemma_reports_rise(self, inputs: Seq<PumpInput>)
        requires
            self.is_valid(),
        ensures
            self.run(inputs).is_valid(),
            self.run(inputs).last_reported_percent >= self.last_reported_percent,
            forall|i: int|
                0 <= i < self.reports(inputs).len() ==> self.last_reported_percent < (
                #[trigger] self.reports(inputs)[i]) <= self.run(inputs).last_reported_percent,
            forall|i: int, j: int|
                0 <= i < j < self.reports(inputs).len() ==> self.reports(inputs)[i]
                    < self.reports(inputs)[j],
        decreases inputs.len(),
    {
        if inputs.len() > 0 {
            let (after, reaction) = self.next(inputs[0].event, inputs[0].stop_requested);
            let rest = inputs.drop_first();
            after.lemma_reports_rise(rest);
            let tail = after.reports(rest);
            match reaction.progression {
                Some(progression) => {
                    let all = seq![progression.progression] + tail;
                    assert(self.reports(inputs) == all);
                    assert(progression.progression == after.last_reported_percent);
                    assert forall|i: int| 0 <= i < all.len() implies self.last_reported_percent < (
                    #[trigger] all[i]) <= self.run(inputs).last_reported_percent by {
                        if i > 0 {
                            assert(all[i] == tail[i - 1]);
                        }
                    }
                    assert forall|i: int, j: int| 0 <= i < j < all.len() implies all[i]
                        < all[j] by {
                        assert(all[j] == tail[j - 1]);
                        if i > 0 {
                            assert(all[i] == tail[i - 1]);
                        }
                    }
                },
                None => {},
            }
        }
    }

    /// A pump gives at most one terminal response, none once it is done, and
    /// exactly one on the way to being done. It asks at most once for the
    /// output to be written, and has asked once where it ends with
    /// `Completed`.
    pub proof fn lemma_single_terminal(self, inputs: Seq<PumpInput>)
        ensures
            self.terminals(inputs).len() <= 1,
            self.stage == PumpStage::Done ==> self.terminals(inputs).len() == 0
                && self.run(inputs).stage == PumpStage::Done,
            self.stage != PumpStage::Done && self.run(inputs).stage == PumpStage::Done
                ==> self.terminals(inputs).len() == 1,
            self.run(inputs).stage != PumpStage::Done ==> self.terminals(inputs).len() == 0,
            self.flushes(inputs) <= 1,
            (self.stage == PumpStage::Flushing || self.stage == PumpStage::Done) ==> self.flushes(
                inputs,
            ) == 0,
            (self.stage == PumpStage::Pulling || self.stage is Processing) && self.terminals(
                inputs,
            ).len() == 1 && self.terminals(inputs)[0] is Completed ==> self.flushes(inputs) == 1,
            self.stage == PumpStage::Flushing && self.terminals(inputs).len() == 1
                ==> self.terminals(inputs)[0] is Completed || self.terminals(inputs)[0] is Error,
            forall|i: int|
                0 <= i < self.terminals(inputs).len() ==> (
                #[trigger] self.terminals(inputs)[i]).is_terminal(),
        decreases inputs.len(),
    {
        if inputs.len() > 0 {
            let (after, reaction) = self.next(inputs[0].event, inputs[0].stop_requested);
            after.lemma_single_terminal(inputs.drop_first());
        }
    }
}

} // verus!
