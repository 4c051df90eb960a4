//! Jobs and what a worker reports of them.

use crate::error::{MessageError, MessageErrorView, ParameterError};
use crate::json::{rendered, Json, JsonView, Number, NumberView};
use crate::parameter::{
    copy_parameters, copy_strings, find, get_parameter, lookup, outcome_view, Content, Parameter,
    ParameterValue, ParameterView, Requirement,
};
use vstd::prelude::*;
use vstd::std_specs::convert::FromSpecImpl;

verus! {

/// Lifecycle status of a job held by a worker.
#[derive(Clone, Copy, Debug, PartialEq, Eq, Structural)]
pub enum JobStatus {
    Unknown,
    Initialized,
    Running,
    Completed,
    Error,
}

impl JobStatus {
    /// A status from which the job never moves again.
    pub open spec fn spec_is_terminal(self) -> bool {
        self == JobStatus::Completed || self == JobStatus::Error
    }

    /// Whether the status is terminal.
    #[verifier::when_used_as_spec(spec_is_terminal)]
    pub fn is_terminal(self) -> (terminal: bool)
        ensures
            terminal == self.spec_is_terminal(),
    {
        match self {
            JobStatus::Completed | JobStatus::Error => true,
            _ => false,
        }
    }

    /// Whether a job of this status may come to the status `next`: a job
    /// is initialized, then runs, then is completed, and may fail at any
    /// time. A job that is completed or has failed moves no more.
    pub open spec fn spec_may_become(self, next: JobStatus) -> bool {
        match (self, next) {
            (JobStatus::Unknown, JobStatus::Initialized) => true,
            (JobStatus::Initialized, JobStatus::Running) => true,
            (JobStatus::Running, JobStatus::Completed) => true,
            (JobStatus::Unknown, JobStatus::Error) => true,
            (JobStatus::Initialized, JobStatus::Error) => true,
            (JobStatus::Running, JobStatus::Error) => true,
            _ => false,
        }
    }

    /// Whether a job of this status may come to the status `next`.
    #[verifier::when_used_as_spec(spec_may_become)]
    pub fn may_become(self, next: JobStatus) -> (allowed: bool)
        ensures
            allowed == self.spec_may_become(next),
    {
        match (self, next) {
            (JobStatus::Unknown, JobStatus::Initialized) => true,
            (JobStatus::Initialized, JobStatus::Running) => true,
            (JobStatus::Running, JobStatus::Completed) => true,
            (JobStatus::Unknown, JobStatus::Error) => true,
            (JobStatus::Initialized, JobStatus::Error) => true,
            (JobStatus::Running, JobStatus::Error) => true,
            _ => false,
        }
    }
}

/// A work order: an identifier and the parameters of the work.
#[derive(Debug, PartialEq, Eq)]
pub struct Job {
    pub job_id: u64,
    pub parameters: Vec<Parameter>,
}

/// Mathematical model of [`Job`].
pub struct JobView {
    pub job_id: u64,
    pub parameters: Seq<ParameterView>,
}

impl View for Job {
    type V = JobView;

    open spec fn view(&self) -> JobView {
        JobView { job_id: self.job_id, parameters: self.parameters.deep_view() }
    }
}

impl DeepView for Job {
    type V = JobView;

    open spec fn deep_view(&self) -> JobView {
        self@
    }
}

impl Clone for Job {
    fn clone(&self) -> (copy: Job)
        ensures
            copy@ == self@,
    {
        Job { job_id: self.job_id, parameters: copy_parameters(&self.parameters) }
    }
}

/// What a worker reports of a job. `execution_duration` is a number of
/// seconds.
#[derive(Debug, PartialEq, Eq)]
pub struct JobResult {
    pub job_id: u64,
    pub status: JobStatus,
    pub parameters: Vec<Parameter>,
    pub destination_paths: Vec<String>,
    pub execution_duration: Number,
}

/// Mathematical model of [`JobResult`].
pub struct JobResultView {
    pub job_id: u64,
    pub status: JobStatus,
    pub parameters: Seq<ParameterView>,
    pub destination_paths: Seq<Seq<char>>,
    pub execution_duration: NumberView,
}

impl View for JobResult {
    type V = JobResultView;

    open spec fn view(&self) -> JobResultView {
        JobResultView {
            job_id: self.job_id,
            status: self.status,
            parameters: self.parameters.deep_view(),
            destination_paths: self.destination_paths.deep_view(),
            execution_duration: self.execution_duration@,
        }
    }
}

impl DeepView for JobResult {
    type V = JobResultView;

    open spec fn deep_view(&self) -> JobResultView {
        self@
    }
}

impl Clone for JobResult {
    fn clone(&self) -> (copy: JobResult)
        ensures
            copy@ == self@,
    {
        JobResult {
            job_id: self.job_id,
            status: self.status,
            parameters: copy_parameters(&self.parameters),
            destination_paths: copy_strings(&self.destination_paths),
            execution_duration: self.execution_duration.clone(),
        }
    }
}

/// Makes `reqwest::Error` known to the verifier, as a type of which it
/// sees nothing.
#[verifier::external_type_specification]
#[verifier::external_body]
pub struct ExRequestError(reqwest::Error);

/// Calls `to_string` on a `reqwest::Error`, which writes the error as its
/// `Display` does. Nothing is claimed of the text.
#[verifier::external_body]
fn request_error_text(error: &reqwest::Error) -> (text: String) {
    error.to_string()
}

/// A string parameter that has a value and no default.
pub open spec fn string_parameter(id: Seq<char>, value: Seq<char>) -> ParameterView {
    ParameterView { id, kind: "string"@, default: None, value: Some(Content::Text(value)) }
}

/// The string parameter that carries a result's message.
pub open spec fn message_parameter(message: Seq<char>) -> ParameterView {
    string_parameter("message"@, message)
}

/// `parameters` without those named `id`, the others in their order.
pub open spec fn without_id(parameters: Seq<ParameterView>, id: Seq<char>) -> Seq<ParameterView>
    decreases parameters.len(),
{
    if parameters.len() == 0 {
        parameters
    } else if parameters.last().id == id {
        without_id(parameters.drop_last(), id)
    } else {
        without_id(parameters.drop_last(), id).push(parameters.last())
    }
}

impl JobResultView {
    /// The result with which every report on a job starts.
    pub open spec fn fresh(job_id: u64) -> JobResultView {
        JobResultView {
            job_id,
            status: JobStatus::Unknown,
            parameters: Seq::empty(),
            destination_paths: Seq::empty(),
            execution_duration: NumberView::Float("0.0"@),
        }
    }

    /// The result with the status `status`.
    pub open spec fn with_status(self, status: JobStatus) -> JobResultView {
        JobResultView { status, ..self }
    }

    /// Replaces whatever message the result carried by `message`.
    pub open spec fn with_message(self, message: Seq<char>) -> JobResultView {
        JobResultView {
            parameters: without_id(self.parameters, "message"@).push(message_parameter(message)),
            ..self
        }
    }

    /// Adds the text of `document` as a string parameter named `id`.
    pub open spec fn with_json(self, id: Seq<char>, document: JsonView) -> JobResultView {
        JobResultView {
            parameters: self.parameters.push(string_parameter(id, rendered(document))),
            ..self
        }
    }
}

/// The first parameter of a name, among parameters of which one was
/// added last, is the first of that name among the others, or else the
/// last one if it has the name.
pub proof fn lemma_find_push(parameters: Seq<ParameterView>, last: ParameterView, id: Seq<char>)
    ensures
        find(parameters.push(last), id) == match find(parameters, id) {
            Some(found) => Some(found),
            None => if last.id == id {
                Some(last)
            } else {
                None
            },
        },
    decreases parameters.len(),
{
    if parameters.len() > 0 {
        assert(parameters.push(last).drop_first() == parameters.drop_first().push(last));
        lemma_find_push(parameters.drop_first(), last, id);
    } else {
        assert(parameters.push(last).drop_first() == parameters);
    }
}

/// Among parameters without those of a name, none has the name.
pub proof fn lemma_without_id_finds_none(parameters: Seq<ParameterView>, id: Seq<char>)
    ensures
        find(without_id(parameters, id), id) is None,
    decreases parameters.len(),
{
    if parameters.len() > 0 {
        lemma_without_id_finds_none(parameters.drop_last(), id);
        if parameters.last().id != id {
            lemma_find_push(without_id(parameters.drop_last(), id), parameters.last(), id);
        }
    }
}

/// The message that a result was given is the one that is read back from
/// it under the name `message`, whatever it carried before.
pub proof fn lemma_message_is_read_back(result: JobResultView, message: Seq<char>)
    ensures
        lookup::<String>(result.with_message(message).parameters, "message"@) == Ok::<
            Seq<char>,
            ParameterError,
        >(message),
{
    lemma_without_id_finds_none(result.parameters, "message"@);
    lemma_find_push(
        without_id(result.parameters, "message"@),
        message_parameter(message),
        "message"@,
    );
}

/// The paths that a parameter requires: those of the value of a
/// requirement parameter named `requirements`.
pub open spec fn paths_of(parameter: ParameterView) -> Seq<Seq<char>> {
    match parameter.value {
        Some(Content::Requirement(requirement)) if parameter.id == "requirements"@ => {
            match requirement.paths {
                Some(paths) => paths,
                None => Seq::empty(),
            }
        },
        _ => Seq::empty(),
    }
}

/// The paths that `parameters` require, in the order of the parameters.
pub open spec fn required_paths(parameters: Seq<ParameterView>) -> Seq<Seq<char>>
    decreases parameters.len(),
{
    if parameters.len() == 0 {
        Seq::empty()
    } else {
        required_paths(parameters.drop_last()) + paths_of(parameters.last())
    }
}

/// The first of `required` that is not among `present`.
pub open spec fn first_missing(required: Seq<Seq<char>>, present: Seq<Seq<char>>) -> Option<
    Seq<char>,
>
    decreases required.len(),
{
    if required.len() == 0 {
        None
    } else if !present.contains(required[0]) {
        Some(required[0])
    } else {
        first_missing(required.drop_first(), present)
    }
}

/// Names the text that std's `Debug` writes for a path: the path between
/// double quotes, with the characters that need it escaped.
pub uninterp spec fn path_debug_text(path: Seq<char>) -> Seq<char>;

/// Calls the `Debug` formatting of `std::path::Path` on `path`. The
/// contract gives the text a name and says no more of it.
#[verifier::external_body]
fn path_debug(path: &str) -> (text: String)
    ensures
        text@ == path_debug_text(path@),
{
    format!("{:?}", std::path::Path::new(path))
}

/// The message with which a missing required file is reported.
pub open spec fn missing_file_message(path: Seq<char>) -> Seq<char> {
    "Warning: Required file does not exists: "@ + path_debug_text(path)
}

/// Whether `text` is one of `list`.
fn contains_text(list: &Vec<String>, text: &String) -> (found: bool)
    ensures
        found == list.deep_view().contains(text@),
{
    let mut i: usize = 0;
    while i < list.len()
        invariant
            i <= list.len(),
            forall|k: int| 0 <= k < i ==> list.deep_view()[k] != text@,
        decreases list.len() - i,
    {
        if list[i] == *text {
            assert(list.deep_view()[i as int] == text@);
            return true;
        }
        i = i + 1;
    }
    false
}

impl Job {
    /// Reads the parameter named `id` as a `T`.
    pub fn get_parameter<T: ParameterValue>(&self, id: &str) -> (outcome: Result<T, ParameterError>)
        ensures
            outcome_view(outcome) == lookup::<T>(self@.parameters, id@),
    {
        get_parameter::<T>(&self.parameters, id)
    }

    pub fn get_parameters(&self) -> (parameters: &Vec<Parameter>)
        ensures
            parameters.deep_view() == self@.parameters,
    {
        &self.parameters
    }

    /// The files that must exist before the job may start.
    pub fn required_paths(&self) -> (paths: Vec<String>)
        ensures
            paths.deep_view() == required_paths(self@.parameters),
    {
        let ghost all = self.parameters.deep_view();
        let mut paths: Vec<String> = Vec::new();
        let key = String::from_str("requirements");
        let mut i: usize = 0;
        assert(paths.deep_view() =~= required_paths(all.take(0)));
        while i < self.parameters.len()
            invariant
                i <= self.parameters.len(),
                all == self.parameters.deep_view(),
                key@ == "requirements"@,
                paths.deep_view() == required_paths(all.take(i as int)),
            decreases self.parameters.len() - i,
        {
            let ghost before = paths.deep_view();
            assert(all.take(i + 1).drop_last() == all.take(i as int));
            assert(all.take(i + 1).last() == self.parameters[i as int]@);
            match &self.parameters[i] {
                Parameter::RequirementParam {
                    id,
                    value: Some(Requirement { paths: Some(listed) }),
                    ..
                } => {
                    if *id == key {
                        let mut k: usize = 0;
                        assert(paths.deep_view() =~= before + listed.deep_view().take(0));
                        while k < listed.len()
                            invariant
                                k <= listed.len(),
                                paths.deep_view() == before + listed.deep_view().take(k as int),
                            decreases listed.len() - k,
                        {
                            let ghost so_far = paths.deep_view();
                            let path = listed[k].clone();
                            assert(path@ == listed.deep_view()[k as int]);
                            paths.push(path);
                            assert(paths.deep_view() =~= so_far.push(listed.deep_view()[k as int]));
                            assert(listed.deep_view().take(k + 1) =~= listed.deep_view().take(
                                k as int,
                            ).push(listed.deep_view()[k as int]));
                            assert(paths.deep_view() =~= before + listed.deep_view().take(k + 1));
                            k = k + 1;
                        }
                        assert(listed.deep_view().take(listed.len() as int) == listed.deep_view());
                    } else {
                        assert(paths.deep_view() =~= before + Seq::empty());
                    }
                },
                _ => {
                    assert(paths.deep_view() =~= before + Seq::empty());
                },
            }
            i = i + 1;
        }
        assert(all.take(all.len() as int) == all);
        paths
    }

    /// Checks that every file the job requires is among `present`, the
    /// files found to exist. The first one that is not is reported.
    pub fn check_requirements(&self, present: &Vec<String>) -> (outcome: Result<(), MessageError>)
        ensures
            match first_missing(required_paths(self@.parameters), present.deep_view()) {
                None => outcome is Ok,
                Some(path) => outcome matches Err(error) && error@
                    == MessageErrorView::RequirementsError(missing_file_message(path)),
            },
    {
        let required = self.required_paths();
        let ghost wanted = required.deep_view();
        let mut i: usize = 0;
        assert(wanted.skip(0) == wanted);
        while i < required.len()
            invariant
                i <= required.len(),
                wanted == required.deep_view(),
                wanted == required_paths(self@.parameters),
                first_missing(wanted, present.deep_view()) == first_missing(
                    wanted.skip(i as int),
                    present.deep_view(),
                ),
            decreases required.len() - i,
        {
            assert(wanted.skip(i as int)[0] == required[i as int]@);
            assert(wanted.skip(i as int).drop_first() == wanted.skip(i + 1));
            if !contains_text(present, &required[i]) {
                let message = String::from_str("Warning: Required file does not exists: ").concat(
                    path_debug(required[i].as_str()).as_str(),
                );
                return Err(MessageError::RequirementsError(message));
            }
            i = i + 1;
        }
        Ok(())
    }
}

impl From<Job> for JobResult {
    /// The result with which the reports on `job` start.
    fn from(job: Job) -> (result: JobResult)
        ensures
            result@ == JobResultView::fresh(job.job_id),
    {
        JobResult::new(job.job_id)
    }
}

impl FromSpecImpl<Job> for JobResult {
    open spec fn obeys_from_spec() -> bool {
        false
    }

    open spec fn from_spec(job: Job) -> JobResult {
        arbitrary()
    }
}

impl From<&Job> for JobResult {
    /// The result with which the reports on `job` start.
    fn from(job: &Job) -> (result: JobResult)
        ensures
            result@ == JobResultView::fresh(job.job_id),
    {
        JobResult::new(job.job_id)
    }
}

impl FromSpecImpl<&Job> for JobResult {
    open spec fn obeys_from_spec() -> bool {
        false
    }

    open spec fn from_spec(job: &Job) -> JobResult {
        arbitrary()
    }
}

impl JobResult {
    /// Reads the parameter named `id` as a `T`.
    pub fn get_parameter<T: ParameterValue>(&self, id: &str) -> (outcome: Result<T, ParameterError>)
        ensures
            outcome_view(outcome) == lookup::<T>(self@.parameters, id@),
    {
        get_parameter::<T>(&self.parameters, id)
    }

    /// The result with which every report on a job starts: of unknown
    /// status, without parameters and paths, after no time.
    pub fn new(job_id: u64) -> (result: JobResult)
        ensures
            result@ == JobResultView::fresh(job_id),
    {
        let result = JobResult {
            job_id,
            status: JobStatus::Unknown,
            parameters: Vec::new(),
            destination_paths: Vec::new(),
            execution_duration: Number::Float(String::from_str("0.0")),
        };
        assert(result@.parameters =~= Seq::empty());
        assert(result@.destination_paths =~= Seq::empty());
        result
    }

    /// The result with the status `status`.
    pub fn with_status(self, status: JobStatus) -> (result: JobResult)
        ensures
            result@ == self@.with_status(status),
    {
        let mut result = self;
        result.status = status;
        result
    }

    /// Replaces whatever message the result carried by `message`: the
    /// parameters named `message` go, and a string parameter of that name
    /// with the value `message` comes last.
    pub fn with_message(self, message: &str) -> (result: JobResult)
        ensures
            result@ == self@.with_message(message@),
    {
        let JobResult { job_id, status, parameters, destination_paths, execution_duration } = self;
        let ghost before = parameters.deep_view();
        let mut kept: Vec<Parameter> = Vec::new();
        let key = String::from_str("message");
        assert(kept.deep_view() =~= without_id(before.take(0), key@));
        for parameter in it: parameters
            invariant
                key@ == "message"@,
                it.seq().len() == before.len(),
                forall|i: int| 0 <= i < before.len() ==> it.seq()[i]@ == #[trigger] before[i],
                kept.deep_view() == without_id(before.take(it.index() as int), key@),
        {
            let ghost n = it.index() as int;
            let ghost kept_before = kept.deep_view();
            assert(parameter@ == before[n]);
            assert(before.take(n + 1).drop_last() == before.take(n));
            assert(before.take(n + 1).last() == before[n]);
            let named = *parameter.get_id() == key;
            assert(named == (before[n].id == key@));
            if !named {
                kept.push(parameter);
                assert(kept.deep_view() =~= kept_before.push(before[n]));
            }
        }
        assert(before.take(before.len() as int) == before);
        let ghost kept_before = kept.deep_view();
        kept.push(
            Parameter::StringParam {
                id: key,
                default: None,
                value: Some(String::from_str(message)),
            },
        );
        assert(kept.deep_view() =~= kept_before.push(message_parameter(message@)));
        JobResult { job_id, status, parameters: kept, destination_paths, execution_duration }
    }

    /// Makes the text of `error` the message of the result.
    pub fn with_error(self, error: reqwest::Error) -> (result: JobResult)
        ensures
            exists|text: Seq<char>| result@ == self@.with_message(text),
    {
        let text = request_error_text(&error);
        self.with_message(text.as_str())
    }

    /// Adds the text of `document` as a string parameter named `id`.
    pub fn with_json(self, id: &str, document: &Json) -> (result: JobResult)
        ensures
            result@ == self@.with_json(id@, document@),
    {
        let mut result = self;
        let ghost before = result.parameters.deep_view();
        result.parameters.push(
            Parameter::StringParam {
                id: String::from_str(id),
                default: None,
                value: Some(document.to_text()),
            },
        );
        assert(result.parameters.deep_view() =~= before.push(
            string_parameter(id@, rendered(document@)),
        ));
        result
    }

    pub fn get_job_id(&self) -> (job_id: u64)
        ensures
            job_id == self@.job_id,
    {
        self.job_id
    }

    pub fn get_status(&self) -> (status: &JobStatus)
        ensures
            *status == self@.status,
    {
        &self.status
    }

    pub fn get_parameters(&self) -> (parameters: &Vec<Parameter>)
        ensures
            parameters.deep_view() == self@.parameters,
    {
        &self.parameters
    }

    pub fn get_destination_paths(&self) -> (paths: &Vec<String>)
        ensures
            paths.deep_view() == self@.destination_paths,
    {
        &self.destination_paths
    }

    pub fn get_execution_duration(&self) -> (seconds: &Number)
        ensures
            seconds@ == self@.execution_duration,
    {
        &self.execution_duration
    }
}

} // verus!
