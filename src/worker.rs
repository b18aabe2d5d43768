//! The decisions of a push backend's worker. The worker's owner receives from
//! the mailbox and performs the HTTP exchange; this state machine decides what
//! each received message, delivery outcome or disconnection leads to.
use vstd::prelude::*;
use vstd::string::*;
use crate::push::{
    PushMessage, PushRequest, PushTarget, headers_view, request_headers_for, payload_of, title_of,
    body_of, request_for, opt_view,
};
use crate::text::{decimal, push_decimal};

verus! {

/// How one delivery attempt ended.
#[derive(Debug)]
pub enum DeliveryOutcome {
    /// The endpoint answered with a success status.
    Delivered,
    /// The endpoint answered with a non-success status and this response body.
    Status { code: u16, body: String },
    /// The exchange did not complete (resolution, connection, timeout, TLS).
    Transport { message: String },
}

/// What the worker observes.
#[derive(Debug)]
pub enum WorkerEvent {
    /// The mailbox yielded a message.
    Received(PushMessage),
    /// The delivery attempt of the last message ended.
    Completed(DeliveryOutcome),
    /// The mailbox is empty and its producer is gone.
    Disconnected,
}

/// What the worker's owner does next.
pub enum WorkerAction {
    /// Perform exactly one POST of this request.
    Post(PushRequest),
    /// Record this diagnostic line.
    Log(String),
    /// Nothing to do; receive the next event.
    Idle,
    /// Stop the worker.
    Exit,
}

/// The diagnostic line for a delivery outcome; successes have none.
pub open spec fn failure_report(name: Seq<char>, o: DeliveryOutcome) -> Option<Seq<char>> {
    match o {
        DeliveryOutcome::Delivered => None,
        DeliveryOutcome::Status { code, body } => Some(
            "Failed to post push request ("@ + name + "): HttpCode="@ + decimal(code as nat)
                + " Response="@ + body@,
        ),
        DeliveryOutcome::Transport { message } => Some(
            "Failed to post push request ("@ + name + "): Transport error="@ + message@,
        ),
    }
}

/// Whether a worker in this state makes a delivery attempt on this event.
pub open spec fn attempts_on(stopped: bool, ev: WorkerEvent) -> bool {
    !stopped && ev is Received
}

/// Whether the worker is stopped after this event.
pub open spec fn stopped_after(stopped: bool, ev: WorkerEvent) -> bool {
    stopped || ev is Disconnected
}

/// The number of delivery attempts a worker makes over a sequence of events.
pub open spec fn attempts(stopped: bool, events: Seq<WorkerEvent>) -> nat
    decreases events.len(),
{
    if events.len() == 0 {
        0
    } else {
        (if attempts_on(stopped, events[0]) { 1nat } else { 0nat }) + attempts(
            stopped_after(stopped, events[0]),
            events.drop_first(),
        )
    }
}

/// The number of received messages in a sequence of events.
pub open spec fn received_count(events: Seq<WorkerEvent>) -> nat
    decreases events.len(),
{
    if events.len() == 0 {
        0
    } else {
        (if events[0] is Received { 1nat } else { 0nat }) + received_count(events.drop_first())
    }
}

/// Whether the producer's disconnection is among the events.
pub open spec fn has_disconnect(events: Seq<WorkerEvent>) -> bool {
    exists|i: int| 0 <= i < events.len() && #[trigger] events[i] is Disconnected
}

/// Builds the diagnostic line for a delivery outcome.
pub fn describe_outcome(name: &String, o: &DeliveryOutcome) -> (r: Option<String>)
    ensures
        opt_view(r) == failure_report(name@, *o),
{
    match o {
        DeliveryOutcome::Delivered => None,
        DeliveryOutcome::Status { code, body } => {
            let mut line = String::from_str("Failed to post push request (");
            line.append(name.as_str());
            line.append("): HttpCode=");
            push_decimal(&mut line, *code as usize);
            line.append(" Response=");
            line.append(body.as_str());
            Some(line)
        },
        DeliveryOutcome::Transport { message } => {
            let mut line = String::from_str("Failed to post push request (");
            line.append(name.as_str());
            line.append("): Transport error=");
            line.append(message.as_str());
            Some(line)
        },
    }
}

/// The worker side of an HTTP push backend.
pub struct PushWorker {
    target: PushTarget,
    stopped: bool,
}

impl PushWorker {
    pub closed spec fn target_view(&self) -> PushTarget {
        self.target
    }

    pub closed spec fn is_stopped(&self) -> bool {
        self.stopped
    }

    /// A running worker delivering to `target`.
    pub fn new(target: PushTarget) -> (r: PushWorker)
        ensures
            r.target_view() == target,
            !r.is_stopped(),
    {
        PushWorker { target, stopped: false }
    }

    /// The endpoint this worker delivers to.
    pub fn target(&self) -> (r: &PushTarget)
        ensures
            *r == self.target_view(),
    {
        &self.target
    }

    /// Whether the worker has exited.
    pub fn stopped(&self) -> (r: bool)
        ensures
            r == self.is_stopped(),
    {
        self.stopped
    }

    /// Decides what an event leads to. A running worker posts each received
    /// message once, reports each failed attempt and carries on, and exits when
    /// the mailbox is drained and disconnected; an exited worker does nothing.
    pub fn handle(&mut self, ev: WorkerEvent) -> (r: WorkerAction)
        ensures
            final(self).target_view() == old(self).target_view(),
            final(self).is_stopped() == stopped_after(old(self).is_stopped(), ev),
            r is Post <==> attempts_on(old(self).is_stopped(), ev),
            r is Exit <==> (!old(self).is_stopped() && ev is Disconnected),
            r matches WorkerAction::Post(req) ==> (ev matches WorkerEvent::Received(m) && req.url@
                == old(self).target_view().url@ && headers_view(req.headers@)
                == request_headers_for(old(self).target_view(), m) && req.payload@ == payload_of(
                title_of(m),
                body_of(m),
            )),
            ev matches WorkerEvent::Completed(o) ==> (match failure_report(
                old(self).target_view().name@,
                o,
            ) {
                Some(line) => r matches WorkerAction::Log(l) && l@ == line,
                None => r is Idle,
            }),
    {
        match ev {
            WorkerEvent::Received(m) => {
                if self.stopped {
                    WorkerAction::Idle
                } else {
                    WorkerAction::Post(request_for(&self.target, &m))
                }
            },
            WorkerEvent::Completed(o) => match describe_outcome(&self.target.name, &o) {
                Some(line) => WorkerAction::Log(line),
                None => WorkerAction::Idle,
            },
            WorkerEvent::Disconnected => {
                if self.stopped {
                    WorkerAction::Idle
                } else {
                    self.stopped = true;
                    WorkerAction::Exit
                }
            },
        }
    }
}

/// An exited worker makes no further delivery attempt, whatever comes.
pub proof fn lemma_no_attempt_after_exit(events: Seq<WorkerEvent>)
    ensures
        attempts(true, events) == 0,
    decreases events.len(),
{
    if events.len() > 0 {
        lemma_no_attempt_after_exit(events.drop_first());
    }
}

/// Without a disconnection among the events, the first is none and the rest
/// hold none.
proof fn lemma_no_disconnect_in_rest(events: Seq<WorkerEvent>)
    requires
        events.len() > 0,
        !has_disconnect(events),
    ensures
        !(events[0] is Disconnected),
        !has_disconnect(events.drop_first()),
{
    let rest = events.drop_first();
    assert(!(events[0] is Disconnected));
    if has_disconnect(rest) {
        let i = choose|i: int| 0 <= i < rest.len() && #[trigger] rest[i] is Disconnected;
        assert(events[i + 1] is Disconnected);
    }
}

/// While the producer is connected, every received message is attempted,
/// whatever the outcomes of earlier attempts were.
pub proof fn lemma_every_message_attempted(events: Seq<WorkerEvent>)
    requires
        !has_disconnect(events),
    ensures
        attempts(false, events) == received_count(events),
    decreases events.len(),
{
    if events.len() > 0 {
        let rest = events.drop_first();
        lemma_no_disconnect_in_rest(events);
        lemma_every_message_attempted(rest);
    }
}

/// When the producer goes away with messages still buffered, the worker
/// attempts each of them exactly once, exits, and attempts nothing afterwards.
pub proof fn lemma_drain_before_exit(buffered: Seq<WorkerEvent>, later: Seq<WorkerEvent>)
    requires
        !has_disconnect(buffered),
    ensures
        attempts(false, buffered + seq![WorkerEvent::Disconnected] + later) == received_count(
            buffered,
        ),
    decreases buffered.len(),
{
    let all = buffered + seq![WorkerEvent::Disconnected] + later;
    if buffered.len() == 0 {
        assert(all[0] is Disconnected);
        assert(all.drop_first() =~= later);
        lemma_no_attempt_after_exit(later);
    } else {
        let rest = buffered.drop_first();
        lemma_no_disconnect_in_rest(buffered);
        assert(all[0] == buffered[0]);
        assert(all.drop_first() =~= rest + seq![WorkerEvent::Disconnected] + later);
        lemma_drain_before_exit(rest, later);
    }
}

} // verus!
