//! What holds of every run of the worker, whatever happens outside.
//!
//! A run is the sequence of events that the worker was given since it began. The
//! events are free: nothing is asked of the broker or of the backend.

use vstd::prelude::*;
use crate::protocol::Message;
use crate::sdapi::GenerationError;
use crate::worker::{concluded, decide, Directive, Event, WorkerState};

verus! {

/// The state of the worker after a run.
pub open spec fn state_after(events: Seq<Event>) -> WorkerState
    decreases events.len(),
{
    if events.len() == 0 {
        WorkerState::Idle
    } else {
        decide(state_after(events.drop_last()), events.last()).0
    }
}

/// What the worker was told to do after the last event of a run that is not empty.
pub open spec fn last_directive(events: Seq<Event>) -> Directive {
    decide(state_after(events.drop_last()), events.last()).1
}

/// Whether the last event of a run handed the worker a delivery that it took.
pub open spec fn took_delivery(events: Seq<Event>) -> bool {
    state_after(events.drop_last()) is Idle && events.last() is Delivered
}

/// Whether the last event of a run told the worker that its acknowledgement arrived.
pub open spec fn got_acknowledged(events: Seq<Event>) -> bool {
    events.last() is Acked && (state_after(events.drop_last()) is Published || state_after(
        events.drop_last(),
    ) is Skipped)
}

/// How many deliveries the worker took in a run.
pub open spec fn taken(events: Seq<Event>) -> nat
    decreases events.len(),
{
    if events.len() == 0 {
        0
    } else {
        taken(events.drop_last()) + if took_delivery(events) {
            1nat
        } else {
            0nat
        }
    }
}

/// How many of the worker's acknowledgements the broker took in a run.
pub open spec fn acknowledged(events: Seq<Event>) -> nat
    decreases events.len(),
{
    if events.len() == 0 {
        0
    } else {
        acknowledged(events.drop_last()) + if got_acknowledged(events) {
            1nat
        } else {
            0nat
        }
    }
}

/// How often the worker asked for the next delivery in a run, the start included.
pub open spec fn pulls(events: Seq<Event>) -> nat
    decreases events.len(),
{
    if events.len() == 0 {
        1
    } else {
        pulls(events.drop_last()) + if last_directive(events) is Pull {
            1nat
        } else {
            0nat
        }
    }
}

/// How often the worker asked for a publication in a run.
pub open spec fn publishes(events: Seq<Event>) -> nat
    decreases events.len(),
{
    if events.len() == 0 {
        0
    } else {
        publishes(events.drop_last()) + if last_directive(events) is Publish {
            1nat
        } else {
            0nat
        }
    }
}

/// How often the worker asked for a publication since it last took a delivery.
pub open spec fn publishes_for_current(events: Seq<Event>) -> nat
    decreases events.len(),
{
    if events.len() == 0 {
        0
    } else if took_delivery(events) {
        0
    } else {
        publishes_for_current(events.drop_last()) + if last_directive(events) is Publish {
            1nat
        } else {
            0nat
        }
    }
}

/// Whether a state holds a delivery that is not acknowledged yet.
pub open spec fn holds_delivery(state: WorkerState) -> bool {
    !(state is Idle) && !(state is Stopped)
}

/// Prefetch respected. In every run the worker took at most one delivery more than
/// were acknowledged. It holds none when idle and one in every state of work, and
/// it asks for the next delivery once at the start and then once for every
/// acknowledgement that arrived, never while it holds an unacknowledged delivery.
pub proof fn lemma_prefetch_respected(events: Seq<Event>)
    ensures
        acknowledged(events) <= taken(events) <= acknowledged(events) + 1,
        state_after(events) is Idle ==> taken(events) == acknowledged(events),
        holds_delivery(state_after(events)) ==> taken(events) == acknowledged(events) + 1,
        pulls(events) == acknowledged(events) + 1,
        taken(events) <= pulls(events),
        events.len() > 0 && last_directive(events) is Pull ==> taken(events) == acknowledged(
            events,
        ),
    decreases events.len(),
{
    if events.len() > 0 {
        lemma_prefetch_respected(events.drop_last());
    }
}

/// At most one publication for a delivery. In every run the worker asked for at most
/// one publication since it last took a delivery, for none before it took the first,
/// and so for no more publications than it took deliveries.
pub proof fn lemma_one_publish_per_delivery(events: Seq<Event>)
    ensures
        publishes_for_current(events) <= 1,
        publishes(events) <= taken(events),
        taken(events) == 0 ==> publishes(events) == 0,
        (state_after(events) is Received || state_after(events) is Decoded) ==> {
            &&& publishes_for_current(events) == 0
            &&& publishes(events) < taken(events)
        },
        state_after(events) is Idle && taken(events) == 0 ==> publishes_for_current(events) == 0,
    decreases events.len(),
{
    if events.len() > 0 {
        lemma_one_publish_per_delivery(events.drop_last());
        lemma_prefetch_respected(events.drop_last());
    }
}

/// Whether an event ends the attempt to generate: a reply, or none to be had.
pub open spec fn ends_generation(event: Event) -> bool {
    event is Replied || event is Unreachable
}

/// Acknowledgement for every job. Whatever comes of the request for a job's images,
/// the worker goes on to acknowledge the job's delivery: at once if generation
/// failed, and once the artifact is published if it succeeded. The acknowledgement
/// taken, the worker is idle and asks for the next delivery.
pub proof fn lemma_ack_universal(delivery_tag: u64, job: Message, event: Event)
    requires
        ends_generation(event),
    ensures
        ({
            let (state, directive) = decide(WorkerState::Decoded { delivery_tag, job }, event);
            let acknowledging = if directive is Publish {
                decide(state, Event::Published)
            } else {
                (state, directive)
            };
            &&& directive is Publish || directive is Ack
            &&& directive is Publish ==> state == (WorkerState::Generated { delivery_tag })
            &&& acknowledging.1 is Ack
            &&& acknowledging.1->Ack_delivery_tag == delivery_tag
            &&& decide(acknowledging.0, Event::Acked) == (WorkerState::Idle, Directive::Pull)
        }),
{
}

/// The same of what follows a given outcome of generation: an artifact is published
/// and then acknowledged, a failure is acknowledged with nothing published.
pub proof fn lemma_ack_after_outcome(
    delivery_tag: u64,
    job: Message,
    outcome: Result<Seq<u8>, GenerationError>,
)
    ensures
        ({
            let (state, directive) = concluded(delivery_tag, job, outcome);
            match outcome {
                Ok(artifact) => {
                    &&& directive is Publish
                    &&& directive->Publish_body == artifact
                    &&& decide(state, Event::Published).1 == (Directive::Ack {
                        delivery_tag,
                        skipped: None,
                    })
                    &&& decide(decide(state, Event::Published).0, Event::Acked) == (
                        WorkerState::Idle,
                        Directive::Pull,
                    )
                },
                Err(error) => {
                    &&& directive == (Directive::Ack { delivery_tag, skipped: Some(error) })
                    &&& decide(state, Event::Acked) == (WorkerState::Idle, Directive::Pull)
                },
            }
        }),
{
}

} // verus!
