//! What can go wrong in a worker.

use crate::job::{JobResult, JobResultView};
use vstd::prelude::*;

verus! {

/// Why a typed read of a parameter failed.
#[derive(Clone, Copy, Debug, PartialEq, Eq, Structural)]
pub enum ParameterError {
    /// No parameter has the identifier, or it has neither value nor default.
    Missing,
    /// The parameter is declared with another type than the one asked for.
    WrongType,
    /// The parameter's raw document does not have the shape asked for.
    DecodeFailed,
}

/// What can go wrong in a worker.
#[derive(Clone, Debug, PartialEq, Eq)]
pub enum MessageError {
    /// An internal failure.
    RuntimeError(String),
    /// A job failed while it was initialized or processed.
    ProcessingError(JobResult),
    /// A file that a job requires is not there.
    RequirementsError(String),
    /// A parameter could not be read.
    ParameterError(ParameterError),
    /// The broker could not be reached or did not take a message.
    BrokerError(String),
}

/// Mathematical model of [`MessageError`].
pub enum MessageErrorView {
    RuntimeError(Seq<char>),
    ProcessingError(JobResultView),
    RequirementsError(Seq<char>),
    ParameterError(ParameterError),
    BrokerError(Seq<char>),
}

impl View for MessageError {
    type V = MessageErrorView;

    open spec fn view(&self) -> MessageErrorView {
        match self {
            MessageError::RuntimeError(text) => MessageErrorView::RuntimeError(text@),
            MessageError::ProcessingError(result) => MessageErrorView::ProcessingError(result@),
            MessageError::RequirementsError(text) => MessageErrorView::RequirementsError(text@),
            MessageError::ParameterError(error) => MessageErrorView::ParameterError(*error),
            MessageError::BrokerError(text) => MessageErrorView::BrokerError(text@),
        }
    }
}

impl DeepView for MessageError {
    type V = MessageErrorView;

    open spec fn deep_view(&self) -> MessageErrorView {
        self@
    }
}

impl MessageErrorView {
    /// The error with which a job is reported as failed for the reason `message`.
    pub open spec fn processing(job_id: u64, message: Seq<char>) -> MessageErrorView {
        MessageErrorView::ProcessingError(
            JobResultView::fresh(job_id).with_status(crate::job::JobStatus::Error).with_message(
                message,
            ),
        )
    }
}

impl MessageError {
    /// The error with which a job is reported as failed for the reason `message`.
    pub fn processing(job_id: u64, message: &str) -> (error: MessageError)
        ensures
            error@ == MessageErrorView::processing(job_id, message@),
    {
        MessageError::ProcessingError(
            JobResult::new(job_id).with_status(crate::job::JobStatus::Error).with_message(message),
        )
    }
}

} // verus!
