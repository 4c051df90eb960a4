//! The form of jobs and of their results on the wire.

use crate::error::MessageError;
use crate::job::{Job, JobResult, JobResultView, JobStatus, JobView};
use crate::json::{field, member, text_is, Json, JsonView, Member, MemberView, Number, NumberView};
use crate::parameter::Parameter;
use crate::wire::parameter::lemma_member_names_differ;
use crate::wire::{
    array_to_json, from_text, lemma_slot_round_trip, read_slot, read_view, slot, value_of_text,
    with_slot, write_slot, Wire,
};
use vstd::prelude::*;

verus! {

/// The name of a status on the wire.
pub open spec fn status_name(status: JobStatus) -> Seq<char> {
    match status {
        JobStatus::Unknown => "unknown"@,
        JobStatus::Initialized => "initialized"@,
        JobStatus::Running => "running"@,
        JobStatus::Completed => "completed"@,
        JobStatus::Error => "error"@,
    }
}

/// The names of the statuses differ from one another.
pub proof fn lemma_status_names_differ()
    ensures
        forall|a: JobStatus, b: JobStatus| status_name(a) == status_name(b) ==> a == b,
{
    reveal_strlit("unknown");
    reveal_strlit("initialized");
    reveal_strlit("running");
    reveal_strlit("completed");
    reveal_strlit("error");
    assert("unknown"@.len() == 7 && "initialized"@.len() == 11 && "running"@.len() == 7);
    assert("completed"@.len() == 9 && "error"@.len() == 5);
    assert("unknown"@[0] != "running"@[0]);
}

impl DeepView for JobStatus {
    type V = JobStatus;

    open spec fn deep_view(&self) -> JobStatus {
        *self
    }
}

impl Wire for JobStatus {
    open spec fn sound(status: JobStatus) -> bool {
        true
    }

    open spec fn encoded(status: JobStatus) -> JsonView {
        JsonView::Text(status_name(status))
    }

    open spec fn decoded(document: JsonView) -> Option<JobStatus> {
        match document {
            JsonView::Text(name) => if name == "unknown"@ {
                Some(JobStatus::Unknown)
            } else if name == "initialized"@ {
                Some(JobStatus::Initialized)
            } else if name == "running"@ {
                Some(JobStatus::Running)
            } else if name == "completed"@ {
                Some(JobStatus::Completed)
            } else if name == "error"@ {
                Some(JobStatus::Error)
            } else {
                None
            },
            _ => None,
        }
    }

    fn to_json(&self) -> (document: Json) {
        match self {
            JobStatus::Unknown => Json::text("unknown"),
            JobStatus::Initialized => Json::text("initialized"),
            JobStatus::Running => Json::text("running"),
            JobStatus::Completed => Json::text("completed"),
            JobStatus::Error => Json::text("error"),
        }
    }

    fn from_json(document: &Json) -> (status: Option<JobStatus>) {
        match document.as_text() {
            Some(name) => if text_is(name, "unknown") {
                Some(JobStatus::Unknown)
            } else if text_is(name, "initialized") {
                Some(JobStatus::Initialized)
            } else if text_is(name, "running") {
                Some(JobStatus::Running)
            } else if text_is(name, "completed") {
                Some(JobStatus::Completed)
            } else if text_is(name, "error") {
                Some(JobStatus::Error)
            } else {
                None
            },
            None => None,
        }
    }

    proof fn lemma_round_trip(status: JobStatus) {
        lemma_status_names_differ();
        assert(status_name(JobStatus::Unknown) == "unknown"@);
        assert(status_name(JobStatus::Initialized) == "initialized"@);
        assert(status_name(JobStatus::Running) == "running"@);
        assert(status_name(JobStatus::Completed) == "completed"@);
        assert(status_name(JobStatus::Error) == "error"@);
    }

    proof fn lemma_decoded_is_sound(document: JsonView) {
    }
}

/// The members that stand for a job.
pub open spec fn job_members(job: JobView) -> Seq<MemberView> {
    with_slot::<Vec<Parameter>>(
        with_slot::<u64>(Seq::empty(), "job_id"@, Some(job.job_id)),
        "parameters"@,
        Some(job.parameters),
    )
}

impl Wire for Job {
    open spec fn sound(job: JobView) -> bool {
        <Vec<Parameter> as Wire>::sound(job.parameters)
    }

    open spec fn encoded(job: JobView) -> JsonView {
        JsonView::Object(job_members(job))
    }

    open spec fn decoded(document: JsonView) -> Option<JobView> {
        match (slot::<u64>(document, "job_id"@), slot::<Vec<Parameter>>(document, "parameters"@)) {
            (Some(Some(job_id)), Some(Some(parameters))) => Some(JobView { job_id, parameters }),
            _ => None,
        }
    }

    fn to_json(&self) -> (document: Json) {
        let mut members: Vec<Member> = Vec::new();
        assert(members.deep_view() =~= Seq::<MemberView>::empty());
        write_slot::<u64>(&mut members, "job_id", &Some(self.job_id));
        members.push(Member::new("parameters", array_to_json::<Parameter>(&self.parameters)));
        assert(members.deep_view() =~= job_members(self@));
        Json::object(members)
    }

    fn from_json(document: &Json) -> (job: Option<Job>) {
        match (read_slot::<u64>(document, "job_id"), read_slot::<Vec<Parameter>>(
            document,
            "parameters",
        )) {
            (Some(Some(job_id)), Some(Some(parameters))) => Some(Job { job_id, parameters }),
            _ => None,
        }
    }

    proof fn lemma_round_trip(job: JobView) {
        lemma_member_names_differ();
        let first = with_slot::<u64>(Seq::empty(), "job_id"@, Some(job.job_id));
        <Vec<Parameter> as Wire>::lemma_round_trip(job.parameters);
        lemma_slot_round_trip::<u64>(Seq::empty(), "job_id"@, Some(job.job_id), "parameters"@);
        lemma_slot_round_trip::<Vec<Parameter>>(
            first,
            "parameters"@,
            Some(job.parameters),
            "job_id"@,
        );
    }

    proof fn lemma_decoded_is_sound(document: JsonView) {
        if let Some(held) = field(document, "parameters"@) {
            <Vec<Parameter> as Wire>::lemma_decoded_is_sound(held);
        }
    }
}

/// The members that stand for the result of a job.
pub open spec fn job_result_members(result: JobResultView) -> Seq<MemberView> {
    with_slot::<Vec<Parameter>>(
        with_slot::<Number>(
            with_slot::<Vec<String>>(
                with_slot::<JobStatus>(
                    with_slot::<u64>(Seq::empty(), "job_id"@, Some(result.job_id)),
                    "status"@,
                    Some(result.status),
                ),
                "destination_paths"@,
                Some(result.destination_paths),
            ),
            "execution_duration"@,
            Some(result.execution_duration),
        ),
        "parameters"@,
        Some(result.parameters),
    )
}

/// The held value, or `otherwise` where nothing is held.
pub open spec fn or_else<V>(held: Option<V>, otherwise: V) -> V {
    match held {
        Some(value) => value,
        None => otherwise,
    }
}

impl Wire for JobResult {
    open spec fn sound(result: JobResultView) -> bool {
        <Vec<Parameter> as Wire>::sound(result.parameters)
    }

    open spec fn encoded(result: JobResultView) -> JsonView {
        JsonView::Object(job_result_members(result))
    }

    /// A result needs its job and its status; what else is missing is
    /// empty, and the duration zero.
    open spec fn decoded(document: JsonView) -> Option<JobResultView> {
        match (
            slot::<u64>(document, "job_id"@),
            slot::<JobStatus>(document, "status"@),
            slot::<Vec<String>>(document, "destination_paths"@),
            slot::<Number>(document, "execution_duration"@),
            slot::<Vec<Parameter>>(document, "parameters"@),
        ) {
            (
                Some(Some(job_id)),
                Some(Some(status)),
                Some(destination_paths),
                Some(execution_duration),
                Some(parameters),
            ) => Some(
                JobResultView {
                    job_id,
                    status,
                    parameters: or_else(parameters, Seq::empty()),
                    destination_paths: or_else(destination_paths, Seq::empty()),
                    execution_duration: or_else(execution_duration, NumberView::Float("0.0"@)),
                },
            ),
            _ => None,
        }
    }

    fn to_json(&self) -> (document: Json) {
        let mut members: Vec<Member> = Vec::new();
        assert(members.deep_view() =~= Seq::<MemberView>::empty());
        write_slot::<u64>(&mut members, "job_id", &Some(self.job_id));
        write_slot::<JobStatus>(&mut members, "status", &Some(self.status));
        let ghost so_far = members.deep_view();
        members.push(
            Member::new("destination_paths", array_to_json::<String>(&self.destination_paths)),
        );
        members.push(Member::new("execution_duration", self.execution_duration.to_json()));
        members.push(Member::new("parameters", array_to_json::<Parameter>(&self.parameters)));
        assert(members.deep_view() =~= job_result_members(self@));
        Json::object(members)
    }

    fn from_json(document: &Json) -> (result: Option<JobResult>) {
        match (
            read_slot::<u64>(document, "job_id"),
            read_slot::<JobStatus>(document, "status"),
            read_slot::<Vec<String>>(document, "destination_paths"),
            read_slot::<Number>(document, "execution_duration"),
            read_slot::<Vec<Parameter>>(document, "parameters"),
        ) {
            (
                Some(Some(job_id)),
                Some(Some(status)),
                Some(destination_paths),
                Some(execution_duration),
                Some(parameters),
            ) => {
                let parameters = match parameters {
                    Some(parameters) => parameters,
                    None => Vec::new(),
                };
                let destination_paths = match destination_paths {
                    Some(paths) => paths,
                    None => Vec::new(),
                };
                let execution_duration = match execution_duration {
                    Some(seconds) => seconds,
                    None => Number::Float(String::from_str("0.0")),
                };
                let result = JobResult {
                    job_id,
                    status,
                    parameters,
                    destination_paths,
                    execution_duration,
                };
                assert(result@.parameters =~= or_else(
                    slot::<Vec<Parameter>>(document@, "parameters"@)->0,
                    Seq::empty(),
                ));
                assert(result@.destination_paths =~= or_else(
                    slot::<Vec<String>>(document@, "destination_paths"@)->0,
                    Seq::empty(),
                ));
                Some(result)
            },
            _ => None,
        }
    }

    proof fn lemma_round_trip(result: JobResultView) {
        lemma_member_names_differ();
        let one = with_slot::<u64>(Seq::empty(), "job_id"@, Some(result.job_id));
        let two = with_slot::<JobStatus>(one, "status"@, Some(result.status));
        let three = with_slot::<Vec<String>>(
            two,
            "destination_paths"@,
            Some(result.destination_paths),
        );
        let four = with_slot::<Number>(
            three,
            "execution_duration"@,
            Some(result.execution_duration),
        );
        let five = with_slot::<Vec<Parameter>>(four, "parameters"@, Some(result.parameters));
        let job_id = Some(result.job_id);
        let status = Some(result.status);
        let paths = Some(result.destination_paths);
        let seconds = Some(result.execution_duration);
        let parameters = Some(result.parameters);
        <Vec<Parameter> as Wire>::lemma_round_trip(result.parameters);
        <Vec<String> as Wire>::lemma_round_trip(result.destination_paths);
        lemma_slot_round_trip::<u64>(Seq::empty(), "job_id"@, job_id, "status"@);
        lemma_slot_round_trip::<JobStatus>(one, "status"@, status, "job_id"@);
        lemma_slot_round_trip::<Vec<String>>(two, "destination_paths"@, paths, "job_id"@);
        lemma_slot_round_trip::<Vec<String>>(two, "destination_paths"@, paths, "status"@);
        lemma_slot_round_trip::<Number>(three, "execution_duration"@, seconds, "job_id"@);
        lemma_slot_round_trip::<Number>(three, "execution_duration"@, seconds, "status"@);
        lemma_slot_round_trip::<Number>(
            three,
            "execution_duration"@,
            seconds,
            "destination_paths"@,
        );
        lemma_slot_round_trip::<Vec<Parameter>>(four, "parameters"@, parameters, "job_id"@);
        lemma_slot_round_trip::<Vec<Parameter>>(four, "parameters"@, parameters, "status"@);
        lemma_slot_round_trip::<Vec<Parameter>>(
            four,
            "parameters"@,
            parameters,
            "destination_paths"@,
        );
        lemma_slot_round_trip::<Vec<Parameter>>(
            four,
            "parameters"@,
            parameters,
            "execution_duration"@,
        );
    }

    proof fn lemma_decoded_is_sound(document: JsonView) {
        if let Some(held) = field(document, "parameters"@) {
            <Vec<Parameter> as Wire>::lemma_decoded_is_sound(held);
        }
    }
}

/// Reading a job from a payload, writing it and reading it again gives
/// the job that was read first.
pub proof fn lemma_job_payload_round_trip(payload: JsonView)
    requires
        Job::decoded(payload) is Some,
    ensures
        Job::decoded(Job::encoded(Job::decoded(payload)->0)) == Job::decoded(payload),
{
    Job::lemma_decoded_is_sound(payload);
    Job::lemma_round_trip(Job::decoded(payload)->0);
}

/// Reading the result of a job from a payload, writing it and reading it
/// again gives the result that was read first.
pub proof fn lemma_job_result_payload_round_trip(payload: JsonView)
    requires
        JobResult::decoded(payload) is Some,
    ensures
        JobResult::decoded(JobResult::encoded(JobResult::decoded(payload)->0))
            == JobResult::decoded(payload),
{
    JobResult::lemma_decoded_is_sound(payload);
    JobResult::lemma_round_trip(JobResult::decoded(payload)->0);
}

impl Job {
    /// Reads a job from the text of a payload.
    pub fn new(message: &str) -> (outcome: Result<Job, MessageError>)
        ensures
            read_view(outcome) == value_of_text::<Job>(message@),
    {
        from_text::<Job>(message)
    }
}

} // verus!
