//! Job lifecycle engine of a media-processing worker.
//!
//! A worker takes orders from a broker, initializes and runs one job at a
//! time, and answers with the progress and the end of the job. This
//! library holds what a worker decides: the state machine of the
//! processor, the frame pump, the parameters of jobs and their form on the
//! wire, and the rules of the exchange with the broker. What a worker
//! does to the outside, such as decoding, writing and publishing, is asked
//! for by commands and answered by events.

pub mod container;
pub mod credential;
pub mod error;
pub mod job;
pub mod json;
pub mod media;
pub mod message_exchange;
pub mod parameter;
pub mod processor;
pub mod rabbitmq;
pub mod wire;

pub use crate::container::ParameterMap;
pub use crate::error::{MessageError, ParameterError};
pub use crate::job::{Job, JobResult, JobStatus};
pub use crate::message_exchange::{
    ExternalExchange, Feedback, InternalExchange, JobProgression, LocalExchange, OrderMessage,
    ResponseMessage, ResponseSender,
};
pub use crate::parameter::{Credential, MediaSegment, Parameter, ParameterValue, Requirement};
pub use crate::processor::MediaProcess;
