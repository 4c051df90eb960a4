//! The processor: the state machine of a worker. It takes orders and the
//! outcomes of the outside work it asked for, and gives responses and the
//! next work to do.

use crate::error::{MessageError, MessageErrorView, ParameterError};
use crate::job::{
    first_missing, missing_file_message, required_paths, Job, JobResult, JobResultView, JobStatus,
    JobView,
};
use crate::media::{
    process, DecodeResult, FramePump, PumpCommand, PumpEvent, PumpEventView, PumpReaction,
    PumpReactionView, PumpStage,
};
use crate::message_exchange::{
    Feedback, FeedbackView, OrderMessage, OrderMessageView, ResponseMessage, ResponseMessageView,
    StatusReport, StatusReportView, SystemInformation, SystemInformationView, WorkerActivity,
};
use crate::parameter::{get_parameter, lookup};
use vstd::prelude::*;

verus! {

/// What a processor is busy with besides its orders.
#[derive(Clone, Copy, Debug, PartialEq, Eq, Structural)]
pub enum Stage {
    /// Nothing: the next order is taken.
    Waiting,
    /// The files that a job requires are being looked for.
    Checking,
    /// The source and the output of a job are being opened.
    Opening,
    /// The frames of a job are being pumped.
    Pumping,
}

/// A job that was initialized, with its pump.
#[derive(Clone, Debug, PartialEq, Eq)]
pub struct MediaJob {
    pub job: Job,
    pub pump: FramePump,
}

/// Mathematical model of [`MediaJob`].
pub struct MediaJobView {
    pub job: JobView,
    pub pump: FramePump,
}

impl View for MediaJob {
    type V = MediaJobView;

    open spec fn view(&self) -> MediaJobView {
        MediaJobView { job: self.job@, pump: self.pump }
    }
}

impl DeepView for MediaJob {
    type V = MediaJobView;

    open spec fn deep_view(&self) -> MediaJobView {
        self@
    }
}

/// What reaches a processor: an order, or the end of outside work that it
/// had asked for.
#[derive(Clone, Debug, PartialEq, Eq)]
pub enum ProcessEvent {
    Order(OrderMessage),
    /// Answer to `CheckRequirements`: those of the files that exist.
    Requirements(Vec<String>),
    /// Answer to `Open`: the length of the source in frames, where known.
    Opened(Option<u64>),
    /// Answer to `Pull`.
    Decoded(DecodeResult),
    /// Answer to `Process`.
    Processed,
    /// Answer to `Flush`.
    Flushed,
    /// The work asked for failed, for the reason given.
    Failed(String),
}

/// Mathematical model of [`ProcessEvent`].
pub enum ProcessEventView {
    Order(OrderMessageView),
    Requirements(Seq<Seq<char>>),
    Opened(Option<u64>),
    Decoded(DecodeResult),
    Processed,
    Flushed,
    Failed(Seq<char>),
}

impl View for ProcessEvent {
    type V = ProcessEventView;

    open spec fn view(&self) -> ProcessEventView {
        match self {
            ProcessEvent::Order(order) => ProcessEventView::Order(order@),
            ProcessEvent::Requirements(present) => ProcessEventView::Requirements(
                present.deep_view(),
            ),
            ProcessEvent::Opened(duration) => ProcessEventView::Opened(*duration),
            ProcessEvent::Decoded(result) => ProcessEventView::Decoded(*result),
            ProcessEvent::Processed => ProcessEventView::Processed,
            ProcessEvent::Flushed => ProcessEventView::Flushed,
            ProcessEvent::Failed(reason) => ProcessEventView::Failed(reason@),
        }
    }
}

/// The outside work that a processor asks for.
#[derive(Clone, Debug, PartialEq, Eq)]
pub enum Command {
    /// Nothing new: the work in hand goes on, or the next order is awaited.
    Continue,
    /// Find out which of these files exist.
    CheckRequirements(Vec<String>),
    /// Open the source and the output.
    Open { source: String, destination: String },
    /// Pull the next decode result from the source.
    Pull,
    /// Hand the frame just decoded to the callback and keep what it returns.
    Process { stream_index: usize },
    /// Write what was kept to the destination.
    Flush,
    /// Hand this order in again once the work in hand has ended.
    Postpone(OrderMessage),
    /// Stop taking orders.
    Exit,
}

/// Mathematical model of [`Command`].
pub enum CommandView {
    Continue,
    CheckRequirements(Seq<Seq<char>>),
    Open { source: Seq<char>, destination: Seq<char> },
    Pull,
    Process { stream_index: usize },
    Flush,
    Postpone(OrderMessageView),
    Exit,
}

impl View for Command {
    type V = CommandView;

    open spec fn view(&self) -> CommandView {
        match self {
            Command::Continue => CommandView::Continue,
            Command::CheckRequirements(paths) => CommandView::CheckRequirements(paths.deep_view()),
            Command::Open { source, destination } => CommandView::Open {
                source: source@,
                destination: destination@,
            },
            Command::Pull => CommandView::Pull,
            Command::Process { stream_index } => CommandView::Process {
                stream_index: *stream_index,
            },
            Command::Flush => CommandView::Flush,
            Command::Postpone(order) => CommandView::Postpone(order@),
            Command::Exit => CommandView::Exit,
        }
    }
}

/// What a processor does on an event: the responses it gives, in their
/// order, and the work it asks for.
#[derive(Clone, Debug, PartialEq, Eq)]
pub struct Reaction {
    pub responses: Vec<ResponseMessage>,
    pub command: Command,
}

/// Mathematical model of [`Reaction`].
pub struct ReactionView {
    pub responses: Seq<ResponseMessageView>,
    pub command: CommandView,
}

impl View for Reaction {
    type V = ReactionView;

    open spec fn view(&self) -> ReactionView {
        ReactionView { responses: self.responses.deep_view(), command: self.command@ }
    }
}

/// The state machine of a worker: it takes orders, asks for the outside
/// work they need, and answers them. One job is in hand at a time.
#[derive(Clone, Debug, PartialEq, Eq)]
pub struct MediaProcess {
    pub status: JobStatus,
    pub stage: Stage,
    /// The job that is being initialized.
    pub pending: Option<Job>,
    /// The job that was initialized last and has not ended.
    pub job: Option<MediaJob>,
    pub stop_requested: bool,
    pub keep_running: bool,
    pub system: SystemInformation,
}

/// Mathematical model of [`MediaProcess`].
pub struct MediaProcessView {
    pub status: JobStatus,
    pub stage: Stage,
    pub pending: Option<JobView>,
    pub job: Option<MediaJobView>,
    pub stop_requested: bool,
    pub keep_running: bool,
    pub system: SystemInformationView,
}

impl View for MediaProcess {
    type V = MediaProcessView;

    open spec fn view(&self) -> MediaProcessView {
        MediaProcessView {
            status: self.status,
            stage: self.stage,
            pending: self.pending.deep_view(),
            job: self.job.deep_view(),
            stop_requested: self.stop_requested,
            keep_running: self.keep_running,
            system: self.system@,
        }
    }
}

/// Whether a worker with a job of this status has the job in hand.
pub open spec fn activity_of(status: JobStatus) -> WorkerActivity {
    match status {
        JobStatus::Initialized | JobStatus::Running => WorkerActivity::Busy,
        JobStatus::Completed | JobStatus::Error | JobStatus::Unknown => WorkerActivity::Idle,
    }
}

/// The answer to a status order.
pub open spec fn status_feedback(
    status: JobStatus,
    job_result: Option<JobResultView>,
    system: SystemInformationView,
) -> ResponseMessageView {
    ResponseMessageView::Feedback(
        FeedbackView::Status(
            StatusReportView { activity: activity_of(status), system, job_result },
        ),
    )
}

/// The responses that a reaction of the pump stands for: the progress it
/// reports, then the response with which it ends.
pub open spec fn pump_responses(reaction: PumpReactionView) -> Seq<ResponseMessageView> {
    let reported = match reaction.progression {
        Some(progression) => seq![
            ResponseMessageView::Feedback(FeedbackView::Progression(progression)),
        ],
        None => Seq::empty(),
    };
    match reaction.terminal {
        Some(terminal) => reported.push(terminal),
        None => reported,
    }
}

/// The work that a command of the pump asks the processor to ask for.
pub open spec fn pump_command(command: PumpCommand) -> CommandView {
    match command {
        PumpCommand::Pull => CommandView::Pull,
        PumpCommand::Process { stream_index } => CommandView::Process { stream_index },
        PumpCommand::Flush => CommandView::Flush,
        PumpCommand::Idle => CommandView::Continue,
    }
}

impl MediaProcessView {
    /// A processor that waits for its first order.
    pub open spec fn initial(system: SystemInformationView) -> MediaProcessView {
        MediaProcessView {
            status: JobStatus::Unknown,
            stage: Stage::Waiting,
            pending: None,
            job: None,
            stop_requested: false,
            keep_running: true,
            system,
        }
    }

    /// The identifier of the job in hand.
    pub open spec fn current_job_id(self) -> Option<u64> {
        match self.job {
            Some(media_job) => Some(media_job.job.job_id),
            None => None,
        }
    }

    /// What is reported of the job in hand.
    pub open spec fn current_job_result(self) -> Option<JobResultView> {
        match self.job {
            Some(media_job) => Some(
                JobResultView::fresh(media_job.job.job_id).with_status(self.status),
            ),
            None => None,
        }
    }

    /// The answer to a status order.
    pub open spec fn status_report(self) -> ResponseMessageView {
        status_feedback(self.status, self.current_job_result(), self.system)
    }

    /// The processor gives `responses` and asks for nothing new.
    pub open spec fn answer(self, responses: Seq<ResponseMessageView>) -> (
        MediaProcessView,
        ReactionView,
    ) {
        (self, ReactionView { responses, command: CommandView::Continue })
    }

    /// An initialization ends without a job: the processor is in error and
    /// says why.
    pub open spec fn refuse(self, error: MessageErrorView) -> (MediaProcessView, ReactionView) {
        MediaProcessView {
            status: JobStatus::Error,
            stage: Stage::Waiting,
            pending: None,
            ..self
        }.answer(seq![ResponseMessageView::Error(error)])
    }

    /// An order to initialize `job`, taken while waiting.
    pub open spec fn on_init(self, job: JobView) -> (MediaProcessView, ReactionView) {
        match lookup::<String>(job.parameters, "source_path"@) {
            Err(error) => self.refuse(MessageErrorView::ParameterError(error)),
            Ok(_) => match lookup::<String>(job.parameters, "destination_path"@) {
                Err(error) => self.refuse(MessageErrorView::ParameterError(error)),
                Ok(_) => (
                    MediaProcessView { stage: Stage::Checking, pending: Some(job), ..self },
                    ReactionView {
                        responses: Seq::empty(),
                        command: CommandView::CheckRequirements(required_paths(job.parameters)),
                    },
                ),
            },
        }
    }

    /// An order to start `job`, taken while waiting.
    pub open spec fn on_start(self, job: JobView) -> (MediaProcessView, ReactionView) {
        if self.status == JobStatus::Initialized && self.job is Some {
            (
                MediaProcessView {
                    status: JobStatus::Running,
                    stage: Stage::Pumping,
                    stop_requested: false,
                    ..self
                },
                ReactionView { responses: Seq::empty(), command: CommandView::Pull },
            )
        } else {
            MediaProcessView { status: JobStatus::Error, ..self }.answer(
                seq![
                    ResponseMessageView::Error(
                        MessageErrorView::processing(
                            job.job_id,
                            "Process cannot be started, it must be initialized before"@,
                        ),
                    ),
                ],
            )
        }
    }

    /// An order to stop `job`.
    pub open spec fn on_stop(self, job: JobView) -> (MediaProcessView, ReactionView) {
        if self.status == JobStatus::Running {
            MediaProcessView { stop_requested: true, ..self }.answer(Seq::empty())
        } else {
            self.answer(
                seq![
                    ResponseMessageView::Error(
                        MessageErrorView::processing(job.job_id, "cannot stop a non-running job"@),
                    ),
                ],
            )
        }
    }

    /// An order is taken: for a status or a stop at any time, for a job
    /// only while waiting, and is else to be handed in again.
    pub open spec fn on_order(self, order: OrderMessageView) -> (MediaProcessView, ReactionView) {
        match order {
            OrderMessageView::Status => self.answer(seq![self.status_report()]),
            OrderMessageView::StopWorker => (
                MediaProcessView { keep_running: false, ..self },
                ReactionView { responses: seq![self.status_report()], command: CommandView::Exit },
            ),
            OrderMessageView::StopProcess(job) => self.on_stop(job),
            OrderMessageView::InitProcess(job) => if self.stage == Stage::Waiting {
                self.on_init(job)
            } else {
                (
                    self,
                    ReactionView { responses: Seq::empty(), command: CommandView::Postpone(order) },
                )
            },
            OrderMessageView::StartProcess(job) => if self.stage == Stage::Waiting {
                self.on_start(job)
            } else {
                (
                    self,
                    ReactionView { responses: Seq::empty(), command: CommandView::Postpone(order) },
                )
            },
        }
    }

    /// The files `present` were found, while `job` waits for its check.
    pub open spec fn on_requirements(self, job: JobView, present: Seq<Seq<char>>) -> (
        MediaProcessView,
        ReactionView,
    ) {
        match first_missing(required_paths(job.parameters), present) {
            Some(path) => self.refuse(
                MessageErrorView::RequirementsError(missing_file_message(path)),
            ),
            None => match lookup::<String>(job.parameters, "source_path"@) {
                Err(error) => self.refuse(MessageErrorView::ParameterError(error)),
                Ok(source) => match lookup::<String>(job.parameters, "destination_path"@) {
                    Err(error) => self.refuse(MessageErrorView::ParameterError(error)),
                    Ok(destination) => (
                        MediaProcessView { stage: Stage::Opening, pending: Some(job), ..self },
                        ReactionView {
                            responses: Seq::empty(),
                            command: CommandView::Open { source, destination },
                        },
                    ),
                },
            },
        }
    }

    /// The source and the output of `job` are open.
    pub open spec fn on_opened(self, job: JobView, duration: Option<u64>) -> (
        MediaProcessView,
        ReactionView,
    ) {
        MediaProcessView {
            status: JobStatus::Initialized,
            stage: Stage::Waiting,
            pending: None,
            job: Some(MediaJobView { job, pump: FramePump::spec_new(job.job_id, duration) }),
            ..self
        }.answer(
            seq![
                ResponseMessageView::Initialized(
                    JobResultView::fresh(job.job_id).with_status(JobStatus::Initialized),
                ),
            ],
        )
    }

    /// The pump of `media_job` takes `event`.
    pub open spec fn on_pump(self, media_job: MediaJobView, event: PumpEventView) -> (
        MediaProcessView,
        ReactionView,
    ) {
        let (pump, reaction) = media_job.pump.next(event, self.stop_requested);
        match reaction.terminal {
            Some(terminal) => MediaProcessView {
                status: if terminal is Completed {
                    JobStatus::Completed
                } else {
                    JobStatus::Error
                },
                stage: Stage::Waiting,
                job: None,
                stop_requested: false,
                ..self
            }.answer(pump_responses(reaction)),
            None => (
                MediaProcessView { job: Some(MediaJobView { pump, ..media_job }), ..self },
                ReactionView {
                    responses: pump_responses(reaction),
                    command: pump_command(reaction.command),
                },
            ),
        }
    }

    /// The processor's transition function. An event that answers no work
    /// that the processor waits for changes nothing.
    pub open spec fn next(self, event: ProcessEventView) -> (MediaProcessView, ReactionView) {
        match (event, self.stage, self.pending, self.job) {
            (ProcessEventView::Order(order), _, _, _) => self.on_order(order),
            (ProcessEventView::Requirements(present), Stage::Checking, Some(job), _) => {
                self.on_requirements(job, present)
            },
            (ProcessEventView::Opened(duration), Stage::Opening, Some(job), _) => self.on_opened(
                job,
                duration,
            ),
            (ProcessEventView::Failed(reason), Stage::Checking, Some(job), _) => self.refuse(
                MessageErrorView::processing(job.job_id, reason),
            ),
            (ProcessEventView::Failed(reason), Stage::Opening, Some(job), _) => self.refuse(
                MessageErrorView::processing(job.job_id, reason),
            ),
            (ProcessEventView::Decoded(result), Stage::Pumping, _, Some(media_job)) => self.on_pump(
                media_job,
                PumpEventView::Decoded(result),
            ),
            (ProcessEventView::Processed, Stage::Pumping, _, Some(media_job)) => self.on_pump(
                media_job,
                PumpEventView::Processed,
            ),
            (ProcessEventView::Flushed, Stage::Pumping, _, Some(media_job)) => self.on_pump(
                media_job,
                PumpEventView::Flushed,
            ),
            (ProcessEventView::Failed(reason), Stage::Pumping, _, Some(media_job)) => self.on_pump(
                media_job,
                PumpEventView::Failed(reason),
            ),
            _ => self.answer(Seq::empty()),
        }
    }
}

/// How many of `responses` are terminal.
pub open spec fn terminal_count(responses: Seq<ResponseMessageView>) -> nat
    decreases responses.len(),
{
    if responses.len() == 0 {
        0
    } else if responses.last().is_terminal() {
        terminal_count(responses.drop_last()) + 1
    } else {
        terminal_count(responses.drop_last())
    }
}

/// The job that a terminal response speaks of.
pub open spec fn terminal_job_id(response: ResponseMessageView) -> Option<u64> {
    match response {
        ResponseMessageView::Completed(result) => Some(result.job_id),
        ResponseMessageView::Error(MessageErrorView::ProcessingError(result)) => Some(
            result.job_id,
        ),
        _ => None,
    }
}

impl MediaProcessView {
    /// What holds of every processor that began as a new one.
    pub open spec fn is_valid(self) -> bool {
        &&& self.stage == Stage::Pumping <==> self.status == JobStatus::Running
        &&& self.stage == Stage::Checking || self.stage == Stage::Opening ==> self.pending is Some
        &&& self.status == JobStatus::Initialized || self.status == JobStatus::Running
            ==> self.job is Some
        &&& self.job matches Some(media_job) ==> {
            &&& media_job.pump.job_id == media_job.job.job_id
            &&& media_job.pump.is_valid()
            &&& media_job.pump.stage != PumpStage::Done
            &&& self.status != JobStatus::Running ==> media_job.pump == FramePump::spec_new(
                media_job.job.job_id,
                media_job.pump.total_duration,
            )
        }
    }

    /// Whether a job runs.
    pub open spec fn is_running(self) -> bool {
        self.status == JobStatus::Running
    }

    /// The processor after `events`.
    pub open spec fn run(self, events: Seq<ProcessEventView>) -> MediaProcessView
        decreases events.len(),
    {
        if events.len() == 0 {
            self
        } else {
            self.next(events[0]).0.run(events.drop_first())
        }
    }

    /// How many jobs the processor starts over `events`.
    pub open spec fn accepted(self, events: Seq<ProcessEventView>) -> nat
        decreases events.len(),
    {
        if events.len() == 0 {
            0
        } else {
            let after = self.next(events[0]).0;
            let started: nat = if !self.is_running() && after.is_running() {
                1
            } else {
                0
            };
            started + after.accepted(events.drop_first())
        }
    }

    /// How many terminal responses the processor gives over `events` while
    /// a job runs.
    pub open spec fn concluded(self, events: Seq<ProcessEventView>) -> nat
        decreases events.len(),
    {
        if events.len() == 0 {
            0
        } else {
            let (after, reaction) = self.next(events[0]);
            let given: nat = if self.is_running() {
                terminal_count(reaction.responses)
            } else {
                0
            };
            given + after.concluded(events.drop_first())
        }
    }

    /// A new processor is valid.
    pub proof fn lemma_initial_is_valid(system: SystemInformationView)
        ensures
            MediaProcessView::initial(system).is_valid(),
            MediaProcessView::initial(system).current_job_id() is None,
    {
    }

    /// A step keeps a processor valid. While a job runs, a step gives a
    /// terminal response if and only if it ends the job; it then gives one,
    /// as its last response and for that job, and leaves no job in hand.
    /// A step that does not end the job leaves it in hand.
    pub proof fn lemma_step(self, event: ProcessEventView)
        requires
            self.is_valid(),
        ensures
            self.next(event).0.is_valid(),
            self.is_running() && self.next(event).0.is_running() ==> {
                &&& terminal_count(self.next(event).1.responses) == 0
                &&& self.next(event).0.current_job_id() == self.current_job_id()
            },
            self.is_running() && !self.next(event).0.is_running() ==> {
                &&& terminal_count(self.next(event).1.responses) == 1
                &&& self.next(event).1.responses.len() > 0
                &&& self.next(event).1.responses.last().is_terminal()
                &&& terminal_job_id(self.next(event).1.responses.last())
                    == self.current_job_id()
                &&& self.next(event).0.current_job_id() is None
                &&& self.next(event).0.status.is_terminal()
            },
            !self.is_running() ==> forall|i: int|
                0 <= i < self.next(event).1.responses.len() ==> !(
                #[trigger] self.next(event).1.responses[i] is Completed),
    {
        reveal_with_fuel(terminal_count, 3);
    }

    /// Every job that a processor starts gets one terminal response, and
    /// only one: over any events, the jobs started, with the one that ran
    /// at the beginning, are as many as the terminal responses given to
    /// running jobs, with the job that runs at the end.
    pub proof fn lemma_single_terminal(self, events: Seq<ProcessEventView>)
        requires
            self.is_valid(),
        ensures
            self.run(events).is_valid(),
            self.accepted(events) + (if self.is_running() {
                1nat
            } else {
                0nat
            }) == self.concluded(events) + (if self.run(events).is_running() {
                1nat
            } else {
                0nat
            }),
        decreases events.len(),
    {
        if events.len() > 0 {
            self.lemma_step(events[0]);
            self.next(events[0]).0.lemma_single_terminal(events.drop_first());
        }
    }

    /// The status of a processor changes as the status of a job may
    /// change, but where another job begins: where a job is initialized,
    /// or where an order for a job is refused after the last job ended
    /// and the processor is in error for it.
    pub proof fn lemma_status_changes(self, event: ProcessEventView)
        requires
            self.is_valid(),
        ensures
            ({
                let after = self.next(event).0;
                ||| after.status == self.status
                ||| self.status.spec_may_become(after.status)
                ||| event is Opened && after.status == JobStatus::Initialized
                ||| self.status.spec_is_terminal() && after.status == JobStatus::Error
                    && !self.is_running()
            }),
    {
    }

    /// A job comes into the hand of a processor only with the response
    /// that it is initialized, on the event that its source and output
    /// are open.
    pub proof fn lemma_job_comes_initialized(self, event: ProcessEventView)
        requires
            self.current_job_id() != self.next(event).0.current_job_id(),
            self.next(event).0.current_job_id() is Some,
        ensures
            event is Opened,
            self.next(event).0.status == JobStatus::Initialized,
            self.next(event).1.responses == seq![
                ResponseMessageView::Initialized(
                    JobResultView::fresh(self.next(event).0.current_job_id()->0).with_status(
                        JobStatus::Initialized,
                    ),
                ),
            ],
    {
    }

    /// Once the job in hand got its terminal response, a status order
    /// finds no job: none is in hand, and the report carries none.
    pub proof fn lemma_status_after_terminal(self, event: ProcessEventView)
        requires
            self.is_valid(),
            self.is_running(),
            !self.next(event).0.is_running(),
        ensures
            self.next(event).0.current_job_id() is None,
            self.next(event).0.next(ProcessEventView::Order(OrderMessageView::Status)).1.responses
                == seq![
                status_feedback(self.next(event).0.status, None, self.system),
            ],
            self.next(event).0.next(ProcessEventView::Order(OrderMessageView::Status)).0
                == self.next(event).0,
    {
        self.lemma_step(event);
    }

    /// A status order changes nothing, and its report carries a job exactly
    /// when one is in hand: the one in hand.
    pub proof fn lemma_status_reports_current_job(self)
        ensures
            self.next(ProcessEventView::Order(OrderMessageView::Status)).0 == self,
            self.next(ProcessEventView::Order(OrderMessageView::Status)).1.responses == seq![
                self.status_report(),
            ],
            self.status_report() matches ResponseMessageView::Feedback(
                FeedbackView::Status(report),
            ) && match report.job_result {
                Some(result) => self.current_job_id() == Some(result.job_id),
                None => self.current_job_id() is None,
            },
    {
    }
}

/// The percent that a response reports, if it reports progress.
pub open spec fn reported_percent(response: ResponseMessageView) -> Option<u8> {
    match response {
        ResponseMessageView::Feedback(FeedbackView::Progression(progression)) => Some(
            progression.progression,
        ),
        _ => None,
    }
}

impl MediaProcessView {
    /// The percent that the pump of the job in hand reported last.
    pub open spec fn last_reported(self) -> u8 {
        match self.job {
            Some(media_job) => media_job.pump.last_reported_percent,
            None => 0,
        }
    }

    /// The percent that a step on `event` reports.
    pub open spec fn step_report(self, event: ProcessEventView) -> Option<u8> {
        let responses = self.next(event).1.responses;
        if responses.len() > 0 {
            reported_percent(responses[0])
        } else {
            None
        }
    }

    /// The percents that the processor reports of the job that runs, over
    /// `events` and up to the end of the job.
    pub open spec fn job_reports(self, events: Seq<ProcessEventView>) -> Seq<u8>
        decreases events.len(),
    {
        if events.len() == 0 || !self.is_running() {
            Seq::empty()
        } else {
            let after = self.next(events[0]).0;
            match self.step_report(events[0]) {
                Some(percent) => seq![percent] + after.job_reports(events.drop_first()),
                None => after.job_reports(events.drop_first()),
            }
        }
    }

    /// While a job runs, a step reports progress at most once, before any
    /// other response and of that job, and with a percent above the one
    /// reported last and not above 100, which the pump then holds as the
    /// last. While no job runs, no step reports progress. A job starts
    /// with nothing reported.
    pub proof fn lemma_step_progress(self, event: ProcessEventView)
        requires
            self.is_valid(),
        ensures
            forall|i: int|
                0 < i < self.next(event).1.responses.len() ==> reported_percent(
                    #[trigger] self.next(event).1.responses[i],
                ) is None,
            !self.is_running() ==> self.step_report(event) is None,
            !self.is_running() && self.next(event).0.is_running() ==> self.next(
                event,
            ).0.last_reported() == 0,
            self.is_running() ==> match self.step_report(event) {
                Some(percent) => {
                    &&& self.last_reported() < percent <= 100
                    &&& self.next(event).1.responses[0] == ResponseMessageView::Feedback(
                        FeedbackView::Progression(
                            crate::message_exchange::JobProgression {
                                job_id: self.current_job_id()->0,
                                progression: percent,
                            },
                        ),
                    )
                    &&& self.next(event).0.is_running() ==> self.next(event).0.last_reported()
                        == percent
                },
                None => self.next(event).0.is_running() ==> self.next(event).0.last_reported()
                    == self.last_reported(),
            },
    {
    }

    /// The percents that a processor reports of a job rise strictly, lie
    /// above the one reported last before, and never pass 100. Of a job
    /// that has just started they lie between 1 and 100.
    pub proof fn lemma_job_reports_rise(self, events: Seq<ProcessEventView>)
        requires
            self.is_valid(),
        ensures
            forall|i: int|
                0 <= i < self.job_reports(events).len() ==> self.last_reported() < (
                #[trigger] self.job_reports(events)[i]) <= 100,
            forall|i: int, j: int|
                0 <= i < j < self.job_reports(events).len() ==> self.job_reports(events)[i]
                    < self.job_reports(events)[j],
        decreases events.len(),
    {
        if events.len() > 0 && self.is_running() {
            let after = self.next(events[0]).0;
            let rest = events.drop_first();
            self.lemma_step(events[0]);
            self.lemma_step_progress(events[0]);
            after.lemma_job_reports_rise(rest);
            let tail = after.job_reports(rest);
            match self.step_report(events[0]) {
                Some(percent) => {
                    let all = seq![percent] + tail;
                    assert(self.job_reports(events) == all);
                    assert forall|i: int| 0 <= i < all.len() implies self.last_reported() < (
                    #[trigger] all[i]) <= 100 by {
                        if i > 0 {
                            assert(all[i] == tail[i - 1]);
                        }
                    }
                    assert forall|i: int, j: int| 0 <= i < j < all.len() implies all[i]
                        < all[j] by {
                        assert(all[j] == tail[j - 1]);
                        if i > 0 {
                            assert(all[i] == tail[i - 1]);
                        }
                    }
                },
                None => {},
            }
        }
    }
}

/// The answer to a status order: busy while a job is initialized or runs.
pub fn get_status_feedback(
    status: JobStatus,
    job_result: Option<JobResult>,
    system: SystemInformation,
) -> (response: ResponseMessage)
    ensures
        response@ == status_feedback(status, job_result.deep_view(), system@),
{
    let activity = match status {
        JobStatus::Initialized | JobStatus::Running => WorkerActivity::Busy,
        JobStatus::Completed | JobStatus::Error | JobStatus::Unknown => WorkerActivity::Idle,
    };
    ResponseMessage::Feedback(Feedback::Status(StatusReport { activity, system, job_result }))
}

/// The one response `response`.
fn single(response: ResponseMessage) -> (responses: Vec<ResponseMessage>)
    ensures
        responses.deep_view() == seq![response@],
{
    let mut responses = Vec::new();
    responses.push(response);
    assert(responses.deep_view() =~= seq![response@]);
    responses
}

/// No response.
fn silence() -> (responses: Vec<ResponseMessage>)
    ensures
        responses.deep_view() == Seq::<ResponseMessageView>::empty(),
{
    let responses = Vec::new();
    assert(responses.deep_view() =~= Seq::<ResponseMessageView>::empty());
    responses
}

impl MediaProcess {
    /// A processor that waits for its first order, on the machine `system`.
    pub fn new(system: SystemInformation) -> (processor: MediaProcess)
        ensures
            processor@ == MediaProcessView::initial(system@),
    {
        MediaProcess {
            status: JobStatus::Unknown,
            stage: Stage::Waiting,
            pending: None,
            job: None,
            stop_requested: false,
            keep_running: true,
            system,
        }
    }

    /// The identifier of the job in hand.
    pub fn get_current_job_id(&self) -> (job_id: Option<u64>)
        ensures
            job_id == self@.current_job_id(),
    {
        match &self.job {
            Some(media_job) => Some(media_job.job.job_id),
            None => None,
        }
    }

    /// Replaces the snapshot of the machine that status reports carry.
    pub fn update_system_information(&mut self, system: SystemInformation)
        ensures
            final(self)@ == (MediaProcessView { system: system@, ..old(self)@ }),
    {
        self.system = system;
    }

    /// The answer to a status order in the processor's present state.
    pub fn get_status_feedback(&self) -> (response: ResponseMessage)
        ensures
            response@ == self@.status_report(),
    {
        let job_result = match &self.job {
            Some(media_job) => Some(JobResult::new(media_job.job.job_id).with_status(self.status)),
            None => None,
        };
        get_status_feedback(self.status, job_result, self.system.clone())
    }

    fn answer(&self, responses: Vec<ResponseMessage>) -> (reaction: Reaction)
        ensures
            (self@, reaction@) == self@.answer(responses.deep_view()),
    {
        Reaction { responses, command: Command::Continue }
    }

    fn refuse(&mut self, error: MessageError) -> (reaction: Reaction)
        ensures
            (final(self)@, reaction@) == old(self)@.refuse(error@),
    {
        self.status = JobStatus::Error;
        self.stage = Stage::Waiting;
        self.pending = None;
        self.answer(single(ResponseMessage::Error(error)))
    }

    fn handle_init(&mut self, job: Job) -> (reaction: Reaction)
        ensures
            (final(self)@, reaction@) == old(self)@.on_init(job@),
    {
        match get_parameter::<String>(&job.parameters, "source_path") {
            Err(error) => self.refuse(MessageError::ParameterError(error)),
            Ok(_) => match get_parameter::<String>(&job.parameters, "destination_path") {
                Err(error) => self.refuse(MessageError::ParameterError(error)),
                Ok(_) => {
                    let paths = job.required_paths();
                    self.stage = Stage::Checking;
                    self.pending = Some(job);
                    Reaction { responses: silence(), command: Command::CheckRequirements(paths) }
                },
            },
        }
    }

    fn handle_start(&mut self, job: Job) -> (reaction: Reaction)
        ensures
            (final(self)@, reaction@) == old(self)@.on_start(job@),
    {
        if self.status == JobStatus::Initialized && self.job.is_some() {
            self.status = JobStatus::Running;
            self.stage = Stage::Pumping;
            self.stop_requested = false;
            Reaction { responses: silence(), command: Command::Pull }
        } else {
            self.status = JobStatus::Error;
            let error = MessageError::processing(
                job.job_id,
                "Process cannot be started, it must be initialized before",
            );
            self.answer(single(ResponseMessage::Error(error)))
        }
    }

    fn handle_stop(&mut self, job: Job) -> (reaction: Reaction)
        ensures
            (final(self)@, reaction@) == old(self)@.on_stop(job@),
    {
        if self.status == JobStatus::Running {
            self.stop_requested = true;
            self.answer(silence())
        } else {
            let error = MessageError::processing(job.job_id, "cannot stop a non-running job");
            self.answer(single(ResponseMessage::Error(error)))
        }
    }

    fn handle_order(&mut self, order: OrderMessage) -> (reaction: Reaction)
        ensures
            (final(self)@, reaction@) == old(self)@.on_order(order@),
    {
        match order {
            OrderMessage::Status => {
                let report = self.get_status_feedback();
                self.answer(single(report))
            },
            OrderMessage::StopWorker => {
                let report = self.get_status_feedback();
                self.keep_running = false;
                Reaction { responses: single(report), command: Command::Exit }
            },
            OrderMessage::StopProcess(job) => self.handle_stop(job),
            OrderMessage::InitProcess(job) => if self.stage == Stage::Waiting {
                self.handle_init(job)
            } else {
                Reaction {
                    responses: silence(),
                    command: Command::Postpone(OrderMessage::InitProcess(job)),
                }
            },
            OrderMessage::StartProcess(job) => if self.stage == Stage::Waiting {
                self.handle_start(job)
            } else {
                Reaction {
                    responses: silence(),
                    command: Command::Postpone(OrderMessage::StartProcess(job)),
                }
            },
        }
    }

    fn handle_requirements(&mut self, job: Job, present: Vec<String>) -> (reaction: Reaction)
        ensures
            (final(self)@, reaction@) == old(self)@.on_requirements(job@, present.deep_view()),
    {
        match job.check_requirements(&present) {
            Err(error) => self.refuse(error),
            Ok(()) => match get_parameter::<String>(&job.parameters, "source_path") {
                Err(error) => self.refuse(MessageError::ParameterError(error)),
                Ok(source) => match get_parameter::<String>(&job.parameters, "destination_path") {
                    Err(error) => self.refuse(MessageError::ParameterError(error)),
                    Ok(destination) => {
                        self.stage = Stage::Opening;
                        self.pending = Some(job);
                        Reaction {
                            responses: silence(),
                            command: Command::Open { source, destination },
                        }
                    },
                },
            },
        }
    }

    fn handle_pump(&mut self, media_job: MediaJob, event: PumpEvent) -> (reaction: Reaction)
        ensures
            (final(self)@, reaction@) == old(self)@.on_pump(media_job@, event@),
    {
        let mut media_job = media_job;
        let PumpReaction { progression, terminal, command } = process(
            &mut media_job.pump,
            event,
            self.stop_requested,
        );
        let mut responses = match progression {
            Some(progression) => single(
                ResponseMessage::Feedback(Feedback::Progression(progression)),
            ),
            None => silence(),
        };
        match terminal {
            Some(terminal) => {
                self.status = match &terminal {
                    ResponseMessage::Completed(_) => JobStatus::Completed,
                    _ => JobStatus::Error,
                };
                self.stage = Stage::Waiting;
                self.job = None;
                self.stop_requested = false;
                let ghost reported = responses.deep_view();
                responses.push(terminal);
                assert(responses.deep_view() =~= reported.push(terminal@));
                self.answer(responses)
            },
            None => {
                self.job = Some(media_job);
                let command = match command {
                    PumpCommand::Pull => Command::Pull,
                    PumpCommand::Process { stream_index } => Command::Process { stream_index },
                    PumpCommand::Flush => Command::Flush,
                    PumpCommand::Idle => Command::Continue,
                };
                Reaction { responses, command }
            },
        }
    }

    /// Takes the processor one step on.
    pub fn handle(&mut self, event: ProcessEvent) -> (reaction: Reaction)
        ensures
            (final(self)@, reaction@) == old(self)@.next(event@),
    {
        match event {
            ProcessEvent::Order(order) => self.handle_order(order),
            ProcessEvent::Requirements(present) => {
                if self.stage == Stage::Checking && self.pending.is_some() {
                    let job = self.pending.take().unwrap();
                    self.handle_requirements(job, present)
                } else {
                    self.answer(silence())
                }
            },
            ProcessEvent::Opened(duration) => {
                if self.stage == Stage::Opening && self.pending.is_some() {
                    let job = self.pending.take().unwrap();
                    let job_id = job.job_id;
                    self.status = JobStatus::Initialized;
                    self.stage = Stage::Waiting;
                    self.job = Some(MediaJob { job, pump: FramePump::new(job_id, duration) });
                    let result = JobResult::new(job_id).with_status(JobStatus::Initialized);
                    self.answer(single(ResponseMessage::Initialized(result)))
                } else {
                    self.answer(silence())
                }
            },
            ProcessEvent::Decoded(result) => self.forward(PumpEvent::Decoded(result)),
            ProcessEvent::Processed => self.forward(PumpEvent::Processed),
            ProcessEvent::Flushed => self.forward(PumpEvent::Flushed),
            ProcessEvent::Failed(reason) => {
                if (self.stage == Stage::Checking || self.stage == Stage::Opening)
                    && self.pending.is_some() {
                    let job = self.pending.take().unwrap();
                    self.refuse(MessageError::processing(job.job_id, reason.as_str()))
                } else {
                    self.forward(PumpEvent::Failed(reason))
                }
            },
        }
    }

    /// Hands `event` to the pump of the job that runs, if one does.
    fn forward(&mut self, event: PumpEvent) -> (reaction: Reaction)
        ensures
            (final(self)@, reaction@) == match old(self)@.job {
                Some(media_job) if old(self)@.stage == Stage::Pumping => old(self)@.on_pump(
                    media_job,
                    event@,
                ),
                _ => old(self)@.answer(Seq::empty()),
            },
    {
        if self.stage == Stage::Pumping && self.job.is_some() {
            let media_job = self.job.take().unwrap();
            self.handle_pump(media_job, event)
        } else {
            self.answer(silence())
        }
    }
}

} // verus!
