//! The rules of the exchange with a broker: where a response is
//! published, and what becomes of the delivery that brought a job.

use crate::error::{MessageError, MessageErrorView, ParameterError};
use crate::job::{Job, JobResult};
use crate::json::{object_of_one, rendered, Json, JsonView, Member, MemberView};
use crate::message_exchange::{
    Feedback, FeedbackView, JobProgression, OrderMessage, OrderMessageView, ResponseMessage,
    ResponseMessageView, StatusReport, StatusReportView, SystemInformation,
    SystemInformationView, WorkerActivity,
};
use crate::wire::{from_text, read_view, value_of_text, with_slot, write_slot, Wire};
use vstd::prelude::*;

verus! {

/// The exchange to which responses are published.
pub const EXCHANGE_NAME_JOB_RESPONSE: &'static str = "job_response";

/// The routing key of the response that a job is completed.
pub const ROUTING_KEY_JOB_COMPLETED: &'static str = "job_completed";

/// The routing key of the progress of a job.
pub const ROUTING_KEY_JOB_PROGRESSION: &'static str = "job_progression";

/// The routing key of the response that a job has failed.
pub const ROUTING_KEY_JOB_ERROR: &'static str = "job_error";

/// The routing key of the response that a job is initialized.
pub const ROUTING_KEY_WORKER_INITIALIZED: &'static str = "worker_initialized";

/// The routing key of the status of a worker.
pub const ROUTING_KEY_WORKER_STATUS: &'static str = "worker_status";

/// What becomes of the delivery that brought a job, once the response
/// that ends the job was handed to the broker.
#[derive(Clone, Copy, Debug, PartialEq, Eq, Structural)]
pub enum Settlement {
    /// The delivery is acknowledged: the job is done with.
    Ack { delivery_tag: u64 },
    /// The delivery is given back; with `requeue`, for another worker.
    Reject { delivery_tag: u64, requeue: bool },
}

/// The routing key under which a response is published.
pub open spec fn routing_key_of(response: ResponseMessageView) -> Seq<char> {
    match response {
        ResponseMessageView::Initialized(_) => ROUTING_KEY_WORKER_INITIALIZED@,
        ResponseMessageView::Completed(_) => ROUTING_KEY_JOB_COMPLETED@,
        ResponseMessageView::Error(_) => ROUTING_KEY_JOB_ERROR@,
        ResponseMessageView::Feedback(FeedbackView::Progression(_)) => ROUTING_KEY_JOB_PROGRESSION@,
        ResponseMessageView::Feedback(FeedbackView::Status(_)) => ROUTING_KEY_WORKER_STATUS@,
    }
}

/// The routing key under which `response` is published.
pub fn routing_key(response: &ResponseMessage) -> (key: &'static str)
    ensures
        key@ == routing_key_of(response@),
{
    match response {
        ResponseMessage::Initialized(_) => ROUTING_KEY_WORKER_INITIALIZED,
        ResponseMessage::Completed(_) => ROUTING_KEY_JOB_COMPLETED,
        ResponseMessage::Error(_) => ROUTING_KEY_JOB_ERROR,
        ResponseMessage::Feedback(Feedback::Progression(_)) => ROUTING_KEY_JOB_PROGRESSION,
        ResponseMessage::Feedback(Feedback::Status(_)) => ROUTING_KEY_WORKER_STATUS,
    }
}

/// The name of the queue on which a worker of the queue `worker_queue`
/// takes its orders.
pub fn order_queue_name(worker_queue: &str) -> (name: String)
    ensures
        name@ == "job_"@ + worker_queue@,
{
    String::from_str("job_").concat(worker_queue)
}

/// The document with which a progression is published.
pub open spec fn progression_document(progression: JobProgression) -> JsonView {
    JsonView::Object(
        with_slot::<u64>(
            with_slot::<u64>(Seq::empty(), "job_id"@, Some(progression.job_id)),
            "progression"@,
            Some(progression.progression as u64),
        ),
    )
}

/// The document with which an error that names no job is published.
pub open spec fn message_document(message: Seq<char>) -> JsonView {
    object_of_one("message"@, JsonView::Text(message))
}

/// What is said of a parameter that could not be read.
pub open spec fn parameter_error_text(error: ParameterError) -> Seq<char> {
    match error {
        ParameterError::Missing => "a parameter is missing"@,
        ParameterError::WrongType => "a parameter is of the wrong type"@,
        ParameterError::DecodeFailed => "a parameter cannot be decoded"@,
    }
}

/// The document with which an error is published: the result of the job
/// where the error carries one, else what it says.
pub open spec fn error_document(error: MessageErrorView) -> JsonView {
    match error {
        MessageErrorView::ProcessingError(result) => JobResult::encoded(result),
        MessageErrorView::RuntimeError(message) => message_document(message),
        MessageErrorView::RequirementsError(message) => message_document(message),
        MessageErrorView::BrokerError(message) => message_document(message),
        MessageErrorView::ParameterError(error) => message_document(parameter_error_text(error)),
    }
}

/// The document that stands for a snapshot of the machine.
pub open spec fn system_document(system: SystemInformationView) -> JsonView {
    JsonView::Object(
        with_slot::<u64>(
            with_slot::<u64>(
                with_slot::<String>(Seq::empty(), "hostname"@, Some(system.hostname)),
                "number_of_processors"@,
                Some(system.number_of_processors),
            ),
            "total_memory"@,
            Some(system.total_memory),
        ),
    )
}

/// The name of an activity on the wire.
pub open spec fn activity_name(activity: WorkerActivity) -> Seq<char> {
    match activity {
        WorkerActivity::Idle => "Idle"@,
        WorkerActivity::Busy => "Busy"@,
    }
}

/// The document with which the status of a worker is published.
pub open spec fn status_document(report: StatusReportView) -> JsonView {
    JsonView::Object(
        with_slot::<JobResult>(
            with_slot::<Json>(
                with_slot::<String>(
                    Seq::empty(),
                    "activity"@,
                    Some(activity_name(report.activity)),
                ),
                "system_info"@,
                Some(system_document(report.system)),
            ),
            "job"@,
            report.job_result,
        ),
    )
}

/// The document with which a response is published.
pub open spec fn payload_document(response: ResponseMessageView) -> JsonView {
    match response {
        ResponseMessageView::Initialized(result) => JobResult::encoded(result),
        ResponseMessageView::Completed(result) => JobResult::encoded(result),
        ResponseMessageView::Error(error) => error_document(error),
        ResponseMessageView::Feedback(FeedbackView::Progression(progression)) => {
            progression_document(progression)
        },
        ResponseMessageView::Feedback(FeedbackView::Status(report)) => status_document(report),
    }
}

fn message_json(message: &str) -> (document: Json)
    ensures
        document@ == message_document(message@),
{
    let mut members: Vec<Member> = Vec::new();
    members.push(Member::new("message", Json::text(message)));
    let document = Json::object(members);
    assert(document@->Object_0 =~= message_document(message@)->Object_0);
    document
}

fn system_json(system: &SystemInformation) -> (document: Json)
    ensures
        document@ == system_document(system@),
{
    let mut members: Vec<Member> = Vec::new();
    assert(members.deep_view() =~= Seq::<MemberView>::empty());
    write_slot::<String>(&mut members, "hostname", &Some(system.hostname.clone()));
    write_slot::<u64>(&mut members, "number_of_processors", &Some(system.number_of_processors));
    write_slot::<u64>(&mut members, "total_memory", &Some(system.total_memory));
    Json::object(members)
}

fn status_json(report: &StatusReport) -> (document: Json)
    ensures
        document@ == status_document(report@),
{
    let activity = match report.activity {
        WorkerActivity::Idle => String::from_str("Idle"),
        WorkerActivity::Busy => String::from_str("Busy"),
    };
    let mut members: Vec<Member> = Vec::new();
    assert(members.deep_view() =~= Seq::<MemberView>::empty());
    write_slot::<String>(&mut members, "activity", &Some(activity));
    write_slot::<Json>(&mut members, "system_info", &Some(system_json(&report.system)));
    write_slot::<JobResult>(&mut members, "job", &report.job_result);
    Json::object(members)
}

fn progression_json(progression: &JobProgression) -> (document: Json)
    ensures
        document@ == progression_document(*progression),
{
    let mut members: Vec<Member> = Vec::new();
    assert(members.deep_view() =~= Seq::<MemberView>::empty());
    write_slot::<u64>(&mut members, "job_id", &Some(progression.job_id));
    write_slot::<u64>(&mut members, "progression", &Some(progression.progression as u64));
    Json::object(members)
}

/// The text with which `response` is published.
pub fn payload(response: &ResponseMessage) -> (text: String)
    ensures
        text@ == rendered(payload_document(response@)),
{
    let document = match response {
        ResponseMessage::Initialized(result) => result.to_json(),
        ResponseMessage::Completed(result) => result.to_json(),
        ResponseMessage::Error(error) => match error {
            MessageError::ProcessingError(result) => result.to_json(),
            MessageError::RuntimeError(message) => message_json(message.as_str()),
            MessageError::RequirementsError(message) => message_json(message.as_str()),
            MessageError::BrokerError(message) => message_json(message.as_str()),
            MessageError::ParameterError(error) => match error {
                ParameterError::Missing => message_json("a parameter is missing"),
                ParameterError::WrongType => message_json("a parameter is of the wrong type"),
                ParameterError::DecodeFailed => message_json("a parameter cannot be decoded"),
            },
        },
        ResponseMessage::Feedback(Feedback::Progression(progression)) => progression_json(
            progression,
        ),
        ResponseMessage::Feedback(Feedback::Status(report)) => status_json(report),
    };
    document.to_text()
}

/// The order that a delivery stands for: the job in its payload is to be
/// started where the delivery asks for a start, and else initialized.
pub open spec fn order_of(payload: Seq<char>, start: bool) -> Result<
    OrderMessageView,
    MessageErrorView,
> {
    match value_of_text::<Job>(payload) {
        Ok(job) => Ok(
            if start {
                OrderMessageView::StartProcess(job)
            } else {
                OrderMessageView::InitProcess(job)
            },
        ),
        Err(error) => Err(error),
    }
}

/// Reads the order that a delivery stands for.
pub fn order_of_delivery(payload: &str, start: bool) -> (outcome: Result<
    OrderMessage,
    MessageError,
>)
    ensures
        read_view(outcome) == order_of(payload@, start),
{
    match Job::new(payload) {
        Ok(job) => Ok(
            if start {
                OrderMessage::StartProcess(job)
            } else {
                OrderMessage::InitProcess(job)
            },
        ),
        Err(error) => Err(error),
    }
}

/// Settles the delivery of a job whose terminal response was handed to
/// the broker: acknowledged if the response was published, and else given
/// back to the queue.
pub fn job_completed(delivery_tag: u64, published: bool) -> (settlement: Settlement)
    ensures
        published ==> settlement == (Settlement::Ack { delivery_tag }),
        !published ==> settlement == (Settlement::Reject { delivery_tag, requeue: true }),
{
    if published {
        Settlement::Ack { delivery_tag }
    } else {
        Settlement::Reject { delivery_tag, requeue: true }
    }
}

/// Settles the delivery with the tag `delivery_tag` after `response` was
/// handed to the broker. Only a terminal response settles a delivery: it
/// is acknowledged if and only if the response was published, and is else
/// rejected for another worker to take.
pub fn settle(response: &ResponseMessage, delivery_tag: u64, published: bool) -> (settlement:
    Option<Settlement>)
    ensures
        settlement == Some(Settlement::Ack { delivery_tag }) <==> response@.is_terminal()
            && published,
        settlement == Some(Settlement::Reject { delivery_tag, requeue: true })
            <==> response@.is_terminal() && !published,
        settlement is None <==> !response@.is_terminal(),
{
    if response.is_terminal() {
        Some(job_completed(delivery_tag, published))
    } else {
        None
    }
}

/// What a worker makes of the broker's answer to a progression: a
/// progression that was not published fails its job, for the reason that
/// the broker gave.
pub fn job_progression(progression: JobProgression, published: Result<(), String>) -> (outcome:
    Result<(), MessageError>)
    ensures
        match published {
            Ok(()) => outcome is Ok,
            Err(reason) => outcome matches Err(error) && error@ == MessageErrorView::processing(
                progression.job_id,
                reason@,
            ),
        },
{
    match published {
        Ok(()) => Ok(()),
        Err(reason) => Err(MessageError::processing(progression.job_id, reason.as_str())),
    }
}

} // verus!
