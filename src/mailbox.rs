//! The bounded mailbox between a push backend and its worker, and the
//! producer side of a push backend.
use vstd::prelude::*;
use vstd::string::*;
use crossbeam_channel::{Receiver, Sender};
use crate::notification::Notification;
use crate::push::{PushMessage, message_for, is_forwarded};

verus! {

#[verifier::external_type_specification]
#[verifier::external_body]
#[verifier::reject_recursive_types(T)]
pub struct ExSender<T>(Sender<T>);

#[verifier::external_type_specification]
#[verifier::external_body]
#[verifier::reject_recursive_types(T)]
pub struct ExReceiver<T>(Receiver<T>);

/// How many messages a push backend's mailbox holds before senders block.
pub const MAILBOX_CAPACITY: usize = 20;

/// The bound that the channel behind a sender was created with.
pub uninterp spec fn mailbox_capacity(s: Sender<PushMessage>) -> Option<usize>;

/// Relies on crossbeam_channel::bounded: a channel whose senders report the
/// capacity it was created with. It panics only for a capacity too large to
/// allocate, which the bound here rules out.
#[verifier::external_body]
fn open_mailbox(cap: usize) -> (r: (Sender<PushMessage>, Receiver<PushMessage>))
    requires
        0 < cap <= 1024,
    ensures
        mailbox_capacity(r.0) == Some(cap),
{
    crossbeam_channel::bounded(cap)
}

/// Relies on crossbeam_channel::Sender::capacity: the bound of the channel.
#[verifier::external_body]
fn sender_capacity(s: &Sender<PushMessage>) -> (r: Option<usize>)
    ensures
        r == mailbox_capacity(*s),
{
    s.capacity()
}

/// Relies on crossbeam_channel::Sender::send: it blocks while the channel is
/// full and fails only once the receiver is gone, handing the message back.
#[verifier::external_body]
fn enqueue(s: &Sender<PushMessage>, m: PushMessage) -> (r: Result<(), PushMessage>)
    ensures
        r matches Err(back) ==> back == m,
{
    s.send(m).map_err(|e| e.0)
}

/// What became of a notification handed to a push backend.
pub enum AcceptOutcome {
    /// The backend's mailbox took this message.
    Enqueued(Ghost<PushMessage>),
    /// Push backends do not forward this kind of notification.
    Unsupported,
    /// The worker is gone: the message was dropped and is handed back, with
    /// the diagnostic line to record.
    Disconnected { message: PushMessage, log: String },
}

/// The diagnostic line for a message dropped because the worker of backend
/// `name` is gone.
pub open spec fn dropped_report(name: Seq<char>) -> Seq<char> {
    "Failed to send notification to push thread ("@ + name + "): the worker has exited"@
}

/// Whether `r` is what push backend `p` does when it accepts `n`: unsupported
/// kinds are dropped silently; any other kind is turned into its mailbox
/// message, which either goes into the mailbox or, if the worker is gone, is
/// handed back with a diagnostic naming the backend.
pub open spec fn accepted(p: PushNotifier, n: Notification, r: AcceptOutcome) -> bool {
    &&& (r is Unsupported <==> !is_forwarded(n))
    &&& (r matches AcceptOutcome::Enqueued(g) ==> message_for(n, Some(g@)))
    &&& (r matches AcceptOutcome::Disconnected { message, log } ==> message_for(n, Some(message))
        && log@ == dropped_report(p.name_view()))
}

/// The producer side of an HTTP push backend.
pub struct PushNotifier {
    name: String,
    sender: Sender<PushMessage>,
}

impl PushNotifier {
    /// The mailbox was created with the fixed capacity.
    pub closed spec fn wf(&self) -> bool {
        mailbox_capacity(self.sender) == Some(MAILBOX_CAPACITY)
    }

    pub closed spec fn name_view(&self) -> Seq<char> {
        self.name@
    }

    /// Name used in diagnostics.
    pub fn name(&self) -> (r: &String)
        ensures
            r@ == self.name_view(),
    {
        &self.name
    }

    /// How many messages the mailbox holds before `accept` blocks.
    pub fn capacity(&self) -> (r: usize)
        requires
            self.wf(),
        ensures
            r == MAILBOX_CAPACITY,
    {
        match sender_capacity(&self.sender) {
            Some(c) => c,
            None => MAILBOX_CAPACITY,
        }
    }

    /// Takes the backend's own copy of a supported notification into the
    /// mailbox, blocking while the mailbox is full. Unsupported kinds leave no
    /// trace.
    pub fn accept(&self, n: &Notification) -> (r: AcceptOutcome)
        ensures
            accepted(*self, *n, r),
    {
        match PushMessage::from_notification(n) {
            None => AcceptOutcome::Unsupported,
            Some(m) => {
                let ghost sent = m;
                match enqueue(&self.sender, m) {
                    Ok(()) => AcceptOutcome::Enqueued(Ghost(sent)),
                    Err(back) => {
                        let mut log = String::from_str("Failed to send notification to push thread (");
                        log.append(self.name.as_str());
                        log.append("): the worker has exited");
                        AcceptOutcome::Disconnected { message: back, log }
                    },
                }
            },
        }
    }
}

/// Opens a push backend's mailbox: the producer side, named `name`, and the
/// receiver that its worker drains.
pub fn open_push_mailbox(name: String) -> (r: (PushNotifier, Receiver<PushMessage>))
    ensures
        r.0.wf(),
        r.0.name_view() == name@,
{
    let (sender, receiver) = open_mailbox(MAILBOX_CAPACITY);
    (PushNotifier { name, sender }, receiver)
}

} // verus!
