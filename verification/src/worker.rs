//! The consumer loop as a state machine: one delivery at a time is taken, decoded,
//! answered and acknowledged. The program that owns the broker channel and the HTTP
//! client does what each [`Action`] asks and reports what happened as an [`Event`].

use vstd::prelude::*;
use vstd::string::*;
use crate::compose::bytes_result;
use crate::protocol::{
    callback_headers, get_properties, only_headers, properties_headers, routing_key,
    routing_key_text, HeaderModel, Message,
};
use crate::sdapi::{
    generation_outcome, request_for, GenerationError, GenerationRequest, RequestModel, SDApi,
};

verus! {

/// The queue that jobs come from.
pub const QUEUE: &'static str = "sdqueue";

/// The tag under which the worker consumes.
pub const CONSUMER_TAG: &'static str = "lailaisd";

/// How many unacknowledged deliveries the broker may hand out.
pub const PREFETCH: u16 = 1;

/// The exchange that callbacks are published to: the default one.
pub const EXCHANGE: &'static str = "";

/// Why the worker cannot start.
#[derive(Debug, Clone, Copy, PartialEq, Eq, Structural)]
pub enum StartupError {
    /// No broker address is configured.
    MissingAddress,
}

/// What to subscribe to, and how.
#[derive(Debug, PartialEq, Eq)]
pub struct Subscription {
    /// The broker's address.
    pub address: String,
    /// The queue to consume.
    pub queue: String,
    /// The consumer tag.
    pub consumer_tag: String,
    /// The prefetch count.
    pub prefetch: u16,
    /// Whether the prefetch count is shared by the whole channel: it is not.
    pub prefetch_global: bool,
}

/// Decides how to start: with the configured broker address the worker consumes the
/// job queue with a prefetch of one, and without an address it does not start.
pub fn subscription(address: Option<String>) -> (r: Result<Subscription, StartupError>)
    ensures
        match address {
            Some(configured) => r matches Ok(plan) && plan.address == configured && plan.queue@
                == QUEUE@ && plan.consumer_tag@ == CONSUMER_TAG@ && plan.prefetch == PREFETCH
                && !plan.prefetch_global,
            None => r matches Err(error) && error == StartupError::MissingAddress,
        },
{
    match address {
        Some(configured) => Ok(
            Subscription {
                address: configured,
                queue: String::from_str(QUEUE),
                consumer_tag: String::from_str(CONSUMER_TAG),
                prefetch: PREFETCH,
                prefetch_global: false,
            },
        ),
        None => Err(StartupError::MissingAddress),
    }
}

/// Where the worker stands.
#[derive(Debug, PartialEq, Eq)]
pub enum WorkerState {
    /// No delivery is held.
    Idle,
    /// A delivery was taken and its body is being decoded.
    Received { delivery_tag: u64 },
    /// The job is known and the backend was asked for its images.
    Decoded { delivery_tag: u64, job: Message },
    /// The artifact was made and is being published.
    Generated { delivery_tag: u64 },
    /// The artifact was published; the acknowledgement is on its way.
    Published { delivery_tag: u64 },
    /// Generation failed and nothing is published; the acknowledgement is on its way.
    Skipped { delivery_tag: u64 },
    /// The loop is over, cleanly or on a fatal error.
    Stopped { clean: bool },
}

/// What happened outside.
#[derive(Debug, PartialEq, Eq)]
pub enum Event {
    /// The broker handed out a delivery.
    Delivered { delivery_tag: u64 },
    /// The broker closed the stream of deliveries.
    StreamEnded,
    /// Reading the next delivery failed.
    ConsumeFailed,
    /// The body of the delivery is this job.
    Decoded { job: Message },
    /// The body of the delivery is not UTF-8, or no job.
    DecodeFailed,
    /// The backend replied.
    Replied { status: u16, body: Vec<u8> },
    /// The backend could not be reached, or its reply not read.
    Unreachable,
    /// The broker took the publication.
    Published,
    /// Publishing failed.
    PublishFailed,
    /// The broker took the acknowledgement.
    Acked,
    /// Acknowledging failed.
    AckFailed,
}

/// What to do next.
#[derive(Debug)]
pub enum Action {
    /// Wait for the next delivery.
    Pull,
    /// Decode the body of the delivery just taken.
    Decode,
    /// Post this request to the backend.
    Generate { request: GenerationRequest },
    /// Publish the artifact.
    Publish { exchange: String, routing_key: String, body: Vec<u8>, properties: lapin::BasicProperties },
    /// Acknowledge the delivery. `skipped` says why nothing was published for it, if so.
    Ack { delivery_tag: u64, skipped: Option<GenerationError> },
    /// Leave the loop: with success if `clean`, else with an error.
    Stop { clean: bool },
}

/// What an [`Action`] asks for, as plain values.
pub enum Directive {
    Pull,
    Decode,
    Generate { request: RequestModel },
    Publish {
        exchange: Seq<char>,
        routing_key: Seq<char>,
        body: Seq<u8>,
        headers: Option<Map<Seq<char>, HeaderModel>>,
        only_headers: bool,
    },
    Ack { delivery_tag: u64, skipped: Option<GenerationError> },
    Stop { clean: bool },
}

impl View for Action {
    type V = Directive;

    open spec fn view(&self) -> Directive {
        match *self {
            Action::Pull => Directive::Pull,
            Action::Decode => Directive::Decode,
            Action::Generate { request } => Directive::Generate { request: request@ },
            Action::Publish { exchange, routing_key, body, properties } => Directive::Publish {
                exchange: exchange@,
                routing_key: routing_key@,
                body: body@,
                headers: properties_headers(properties),
                only_headers: only_headers(properties),
            },
            Action::Ack { delivery_tag, skipped } => Directive::Ack { delivery_tag, skipped },
            Action::Stop { clean } => Directive::Stop { clean },
        }
    }
}

/// What follows the attempt to generate the images of a job: an artifact is published
/// under the bot's routing key with the job's headers and no other property, and
/// after a failure the delivery is acknowledged with nothing published.
pub open spec fn concluded(
    delivery_tag: u64,
    job: Message,
    outcome: Result<Seq<u8>, GenerationError>,
) -> (WorkerState, Directive) {
    match outcome {
        Ok(artifact) => (
            WorkerState::Generated { delivery_tag },
            Directive::Publish {
                exchange: EXCHANGE@,
                routing_key: routing_key_text(job.uin),
                body: artifact,
                headers: Some(callback_headers(job)),
                only_headers: true,
            },
        ),
        Err(error) => (
            WorkerState::Skipped { delivery_tag },
            Directive::Ack { delivery_tag, skipped: Some(error) },
        ),
    }
}

/// The worker's rule: the state after an event, and what to do then. An event that
/// the state does not expect, and every failure but one of generation, stops the
/// worker with an error; the end of the stream stops it cleanly.
pub open spec fn decide(state: WorkerState, event: Event) -> (WorkerState, Directive) {
    match (state, event) {
        (WorkerState::Stopped { clean }, _) => (
            WorkerState::Stopped { clean },
            Directive::Stop { clean },
        ),
        (WorkerState::Idle, Event::Delivered { delivery_tag }) => (
            WorkerState::Received { delivery_tag },
            Directive::Decode,
        ),
        (WorkerState::Idle, Event::StreamEnded) => (
            WorkerState::Stopped { clean: true },
            Directive::Stop { clean: true },
        ),
        (WorkerState::Received { delivery_tag }, Event::Decoded { job }) => (
            WorkerState::Decoded { delivery_tag, job },
            Directive::Generate { request: request_for(job.tag@) },
        ),
        (WorkerState::Decoded { delivery_tag, job }, Event::Replied { status, body }) => concluded(
            delivery_tag,
            job,
            generation_outcome(status, body@),
        ),
        (WorkerState::Decoded { delivery_tag, job }, Event::Unreachable) => concluded(
            delivery_tag,
            job,
            Err(GenerationError::Unreachable),
        ),
        (WorkerState::Generated { delivery_tag }, Event::Published) => (
            WorkerState::Published { delivery_tag },
            Directive::Ack { delivery_tag, skipped: None },
        ),
        (WorkerState::Published { delivery_tag }, Event::Acked) => (
            WorkerState::Idle,
            Directive::Pull,
        ),
        (WorkerState::Skipped { delivery_tag }, Event::Acked) => (
            WorkerState::Idle,
            Directive::Pull,
        ),
        _ => (WorkerState::Stopped { clean: false }, Directive::Stop { clean: false }),
    }
}

/// How the worker begins: with no delivery held, waiting for the first.
pub fn start() -> (r: (WorkerState, Action))
    ensures
        r.0 == WorkerState::Idle,
        r.1@ == Directive::Pull,
{
    (WorkerState::Idle, Action::Pull)
}

/// Decides what follows the attempt to generate the images of a job.
pub fn conclude(delivery_tag: u64, job: Message, outcome: Result<Vec<u8>, GenerationError>) -> (r:
    (WorkerState, Action))
    ensures
        r.0 == concluded(delivery_tag, job, bytes_result(outcome)).0,
        r.1@ == concluded(delivery_tag, job, bytes_result(outcome)).1,
{
    match outcome {
        Ok(artifact) => {
            let key = routing_key(job.uin);
            let properties = get_properties(job);
            (
                WorkerState::Generated { delivery_tag },
                Action::Publish {
                    exchange: String::from_str(EXCHANGE),
                    routing_key: key,
                    body: artifact,
                    properties,
                },
            )
        },
        Err(error) => (
            WorkerState::Skipped { delivery_tag },
            Action::Ack { delivery_tag, skipped: Some(error) },
        ),
    }
}

/// Stops the worker with an error.
fn fail() -> (r: (WorkerState, Action))
    ensures
        r.0 == (WorkerState::Stopped { clean: false }),
        r.1@ == (Directive::Stop { clean: false }),
{
    (WorkerState::Stopped { clean: false }, Action::Stop { clean: false })
}

/// Takes the worker from one state to the next on an event, and says what to do then.
pub fn step(state: WorkerState, event: Event) -> (r: (WorkerState, Action))
    ensures
        r.0 == decide(state, event).0,
        r.1@ == decide(state, event).1,
{
    match state {
        WorkerState::Stopped { clean } => (WorkerState::Stopped { clean }, Action::Stop { clean }),
        WorkerState::Idle => match event {
            Event::Delivered { delivery_tag } => (
                WorkerState::Received { delivery_tag },
                Action::Decode,
            ),
            Event::StreamEnded => (
                WorkerState::Stopped { clean: true },
                Action::Stop { clean: true },
            ),
            _ => fail(),
        },
        WorkerState::Received { delivery_tag } => match event {
            Event::Decoded { job } => {
                let request = SDApi::init().request(job.tag.as_str());
                (WorkerState::Decoded { delivery_tag, job }, Action::Generate { request })
            },
            _ => fail(),
        },
        WorkerState::Decoded { delivery_tag, job } => match event {
            Event::Replied { status, body } => {
                let outcome = SDApi::init().txt2img(status, body.as_slice());
                conclude(delivery_tag, job, outcome)
            },
            Event::Unreachable => conclude(delivery_tag, job, Err(GenerationError::Unreachable)),
            _ => fail(),
        },
        WorkerState::Generated { delivery_tag } => match event {
            Event::Published => (
                WorkerState::Published { delivery_tag },
                Action::Ack { delivery_tag, skipped: None },
            ),
            _ => fail(),
        },
        WorkerState::Published { delivery_tag } => match event {
            Event::Acked => (WorkerState::Idle, Action::Pull),
            _ => fail(),
        },
        WorkerState::Skipped { delivery_tag } => match event {
            Event::Acked => (WorkerState::Idle, Action::Pull),
            _ => fail(),
        },
    }
}

} // verus!
