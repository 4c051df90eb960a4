//! Orders and responses, and the exchanges that carry them.

use crate::error::{MessageError, MessageErrorView};
use crate::job::{Job, JobResult, JobResultView, JobStatus, JobView};
use std::collections::VecDeque;
use vstd::prelude::*;

verus! {

/// How far a job has come, in percent.
#[derive(Clone, Copy, Debug, PartialEq, Eq, Structural)]
pub struct JobProgression {
    pub job_id: u64,
    pub progression: u8,
}

/// Whether a worker has a job in hand.
#[derive(Clone, Copy, Debug, PartialEq, Eq, Structural)]
pub enum WorkerActivity {
    Idle,
    Busy,
}

/// A snapshot of the machine a worker runs on.
#[derive(Debug, PartialEq, Eq)]
pub struct SystemInformation {
    pub hostname: String,
    pub number_of_processors: u64,
    pub total_memory: u64,
}

/// Mathematical model of [`SystemInformation`].
pub struct SystemInformationView {
    pub hostname: Seq<char>,
    pub number_of_processors: u64,
    pub total_memory: u64,
}

impl View for SystemInformation {
    type V = SystemInformationView;

    open spec fn view(&self) -> SystemInformationView {
        SystemInformationView {
            hostname: self.hostname@,
            number_of_processors: self.number_of_processors,
            total_memory: self.total_memory,
        }
    }
}

impl Clone for SystemInformation {
    fn clone(&self) -> (copy: SystemInformation)
        ensures
            copy@ == self@,
    {
        SystemInformation {
            hostname: self.hostname.clone(),
            number_of_processors: self.number_of_processors,
            total_memory: self.total_memory,
        }
    }
}

/// What a worker answers when asked for its status.
#[derive(Clone, Debug, PartialEq, Eq)]
pub struct StatusReport {
    pub activity: WorkerActivity,
    pub system: SystemInformation,
    pub job_result: Option<JobResult>,
}

/// Mathematical model of [`StatusReport`].
pub struct StatusReportView {
    pub activity: WorkerActivity,
    pub system: SystemInformationView,
    pub job_result: Option<JobResultView>,
}

impl View for StatusReport {
    type V = StatusReportView;

    open spec fn view(&self) -> StatusReportView {
        StatusReportView {
            activity: self.activity,
            system: self.system@,
            job_result: self.job_result.deep_view(),
        }
    }
}

/// A response that ends nothing: progress or status.
#[derive(Clone, Debug, PartialEq, Eq)]
pub enum Feedback {
    Progression(JobProgression),
    Status(StatusReport),
}

/// Mathematical model of [`Feedback`].
pub enum FeedbackView {
    Progression(JobProgression),
    Status(StatusReportView),
}

impl View for Feedback {
    type V = FeedbackView;

    open spec fn view(&self) -> FeedbackView {
        match self {
            Feedback::Progression(progression) => FeedbackView::Progression(*progression),
            Feedback::Status(report) => FeedbackView::Status(report@),
        }
    }
}

/// What a worker says to the broker.
#[derive(Clone, Debug, PartialEq, Eq)]
pub enum ResponseMessage {
    Initialized(JobResult),
    Completed(JobResult),
    Feedback(Feedback),
    Error(MessageError),
}

/// Mathematical model of [`ResponseMessage`].
pub enum ResponseMessageView {
    Initialized(JobResultView),
    Completed(JobResultView),
    Feedback(FeedbackView),
    Error(MessageErrorView),
}

impl View for ResponseMessage {
    type V = ResponseMessageView;

    open spec fn view(&self) -> ResponseMessageView {
        match self {
            ResponseMessage::Initialized(result) => ResponseMessageView::Initialized(result@),
            ResponseMessage::Completed(result) => ResponseMessageView::Completed(result@),
            ResponseMessage::Feedback(feedback) => ResponseMessageView::Feedback(feedback@),
            ResponseMessage::Error(error) => ResponseMessageView::Error(error@),
        }
    }
}

impl DeepView for ResponseMessage {
    type V = ResponseMessageView;

    open spec fn deep_view(&self) -> ResponseMessageView {
        self@
    }
}

impl ResponseMessageView {
    /// A terminal response ends a job: it is `Completed` or `Error`.
    pub open spec fn is_terminal(self) -> bool {
        self is Completed || self is Error
    }
}

impl ResponseMessage {
    /// Whether the response ends a job.
    pub fn is_terminal(&self) -> (terminal: bool)
        ensures
            terminal == self@.is_terminal(),
    {
        match self {
            ResponseMessage::Completed(_) | ResponseMessage::Error(_) => true,
            _ => false,
        }
    }
}

/// What the broker asks of a worker.
#[derive(Clone, Debug, PartialEq, Eq)]
pub enum OrderMessage {
    InitProcess(Job),
    StartProcess(Job),
    StopProcess(Job),
    Status,
    StopWorker,
}

/// Mathematical model of [`OrderMessage`].
pub enum OrderMessageView {
    InitProcess(JobView),
    StartProcess(JobView),
    StopProcess(JobView),
    Status,
    StopWorker,
}

impl View for OrderMessage {
    type V = OrderMessageView;

    open spec fn view(&self) -> OrderMessageView {
        match self {
            OrderMessage::InitProcess(job) => OrderMessageView::InitProcess(job@),
            OrderMessage::StartProcess(job) => OrderMessageView::StartProcess(job@),
            OrderMessage::StopProcess(job) => OrderMessageView::StopProcess(job@),
            OrderMessage::Status => OrderMessageView::Status,
            OrderMessage::StopWorker => OrderMessageView::StopWorker,
        }
    }
}

impl DeepView for OrderMessage {
    type V = OrderMessageView;

    open spec fn deep_view(&self) -> OrderMessageView {
        self@
    }
}

/// The side of an exchange that the host of a worker uses: it hands
/// orders in and polls for responses.
pub trait ExternalExchange {
    fn send_order(&mut self, message: OrderMessage) -> Result<(), MessageError>;

    /// The next response, if one is waiting.
    fn next_response(&mut self) -> Result<Option<ResponseMessage>, MessageError>;
}

/// The side of an exchange that a processor uses: it takes orders and
/// hands responses in.
pub trait InternalExchange {
    fn send_response(&mut self, message: ResponseMessage) -> Result<(), MessageError>;

    /// The next order, if one is waiting.
    fn next_order(&mut self) -> Result<Option<OrderMessage>, MessageError>;
}

/// A handle through which responses are handed to an exchange.
pub trait ResponseSender {
    fn send_response(&self, message: ResponseMessage) -> Result<(), MessageError>;
}

/// An exchange within one process: two queues, one of orders and one of
/// responses, each handed out in the order in which it was filled.
#[derive(Clone, Debug, PartialEq, Eq)]
pub struct LocalExchange {
    pub orders: VecDeque<OrderMessage>,
    pub responses: VecDeque<ResponseMessage>,
}

/// Mathematical model of [`LocalExchange`].
pub struct LocalExchangeView {
    pub orders: Seq<OrderMessageView>,
    pub responses: Seq<ResponseMessageView>,
}

impl View for LocalExchange {
    type V = LocalExchangeView;

    open spec fn view(&self) -> LocalExchangeView {
        LocalExchangeView {
            orders: self.orders.deep_view(),
            responses: self.responses.deep_view(),
        }
    }
}

impl LocalExchange {
    /// An exchange in which nothing waits.
    pub fn new() -> (exchange: LocalExchange)
        ensures
            exchange@.orders == Seq::<OrderMessageView>::empty(),
            exchange@.responses == Seq::<ResponseMessageView>::empty(),
    {
        let exchange = LocalExchange { orders: VecDeque::new(), responses: VecDeque::new() };
        assert(exchange@.orders =~= Seq::empty());
        assert(exchange@.responses =~= Seq::empty());
        exchange
    }
}

impl ExternalExchange for LocalExchange {
    /// Puts `message` at the end of the orders.
    fn send_order(&mut self, message: OrderMessage) -> (outcome: Result<(), MessageError>)
        ensures
            outcome is Ok,
            final(self)@ == (LocalExchangeView {
                orders: old(self)@.orders.push(message@),
                ..old(self)@
            }),
    {
        self.orders.push_back(message);
        assert(self@.orders =~= old(self)@.orders.push(message@));
        Ok(())
    }

    /// Takes the first of the responses, if there is one.
    fn next_response(&mut self) -> (outcome: Result<Option<ResponseMessage>, MessageError>)
        ensures
            outcome matches Ok(response) && match response {
                Some(response) => old(self)@.responses.len() > 0 && response@
                    == old(self)@.responses[0] && final(self)@ == (LocalExchangeView {
                    responses: old(self)@.responses.drop_first(),
                    ..old(self)@
                }),
                None => old(self)@.responses.len() == 0 && final(self)@ == old(self)@,
            },
    {
        let response = self.responses.pop_front();
        assert(response is Some ==> self@.responses =~= old(self)@.responses.drop_first());
        Ok(response)
    }
}

impl InternalExchange for LocalExchange {
    /// Puts `message` at the end of the responses.
    fn send_response(&mut self, message: ResponseMessage) -> (outcome: Result<(), MessageError>)
        ensures
            outcome is Ok,
            final(self)@ == (LocalExchangeView {
                responses: old(self)@.responses.push(message@),
                ..old(self)@
            }),
    {
        self.responses.push_back(message);
        assert(self@.responses =~= old(self)@.responses.push(message@));
        Ok(())
    }

    /// Takes the first of the orders, if there is one.
    fn next_order(&mut self) -> (outcome: Result<Option<OrderMessage>, MessageError>)
        ensures
            outcome matches Ok(order) && match order {
                Some(order) => old(self)@.orders.len() > 0 && order@ == old(self)@.orders[0]
                    && final(self)@ == (LocalExchangeView {
                    orders: old(self)@.orders.drop_first(),
                    ..old(self)@
                }),
                None => old(self)@.orders.len() == 0 && final(self)@ == old(self)@,
            },
    {
        let order = self.orders.pop_front();
        assert(order is Some ==> self@.orders =~= old(self)@.orders.drop_first());
        Ok(order)
    }
}

} // verus!
