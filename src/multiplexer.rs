//! Fan-out of each notification to every configured backend, in order.
use vstd::prelude::*;
use crate::console::{StdOutNotifier, console_lines, texts};
use crate::mailbox::{AcceptOutcome, PushNotifier, accepted};
use crate::notification::Notification;

verus! {

/// A configured delivery backend.
pub enum Backend {
    Console(StdOutNotifier),
    Push(PushNotifier),
}

/// What one backend did with a notification.
pub enum Delivery {
    /// The console backend's lines, to be written in order.
    Printed(Vec<String>),
    /// What the push backend's mailbox did with it.
    Pushed(AcceptOutcome),
}

/// Whether `d` is what backend `b` does when it accepts `n`.
pub open spec fn accepted_by(b: Backend, n: Notification, d: Delivery) -> bool {
    match b {
        Backend::Console(_) => match d {
            Delivery::Printed(lines) => texts(lines@) == console_lines(n),
            Delivery::Pushed(_) => false,
        },
        Backend::Push(p) => match d {
            Delivery::Pushed(o) => accepted(p, n, o),
            Delivery::Printed(_) => false,
        },
    }
}

impl Backend {
    /// Hands `n` to this backend.
    pub fn accept(&self, n: &Notification) -> (r: Delivery)
        ensures
            accepted_by(*self, *n, r),
    {
        match self {
            Backend::Console(c) => Delivery::Printed(c.lines(n)),
            Backend::Push(p) => Delivery::Pushed(p.accept(n)),
        }
    }
}

/// The console backend.
pub fn new_stdout_notifier() -> (r: Backend)
    ensures
        r is Console,
{
    Backend::Console(StdOutNotifier {  })
}

/// Collects backends before the set is frozen.
pub struct NotifierMultiplexerBuilder {
    notifiers: Vec<Backend>,
}

impl NotifierMultiplexerBuilder {
    pub closed spec fn backends(&self) -> Seq<Backend> {
        self.notifiers@
    }

    /// A builder with no backend.
    pub fn new() -> (r: NotifierMultiplexerBuilder)
        ensures
            r.backends() == Seq::<Backend>::empty(),
    {
        NotifierMultiplexerBuilder { notifiers: Vec::new() }
    }

    /// Appends a backend; neither names nor kinds need be unique.
    pub fn with_notifier(self, notifier: Backend) -> (r: NotifierMultiplexerBuilder)
        ensures
            r.backends() == self.backends().push(notifier),
    {
        let mut notifiers = self.notifiers;
        notifiers.push(notifier);
        NotifierMultiplexerBuilder { notifiers }
    }

    /// Freezes the backends, in the order they were added.
    pub fn build(self) -> (r: NotifierMultiplexer)
        ensures
            r.backends() == self.backends(),
    {
        NotifierMultiplexer { notifiers: self.notifiers }
    }
}

/// A fixed, ordered set of backends.
pub struct NotifierMultiplexer {
    notifiers: Vec<Backend>,
}

impl NotifierMultiplexer {
    pub closed spec fn backends(&self) -> Seq<Backend> {
        self.notifiers@
    }

    /// Number of backends.
    pub fn len(&self) -> (r: usize)
        ensures
            r == self.backends().len(),
    {
        self.notifiers.len()
    }

    /// Hands `n` to every backend exactly once, in the order they were added;
    /// the i-th entry of the result is what the i-th backend did with it.
    pub fn notify(&self, n: &Notification) -> (r: Vec<Delivery>)
        ensures
            r@.len() == self.backends().len(),
            forall|i: int|
                0 <= i < r@.len() ==> accepted_by(#[trigger] self.backends()[i], *n, r@[i]),
    {
        let mut out: Vec<Delivery> = Vec::new();
        let mut i: usize = 0;
        while i < self.notifiers.len()
            invariant
                i <= self.notifiers@.len(),
                out@.len() == i,
                forall|j: int|
                    0 <= j < i ==> accepted_by(#[trigger] self.notifiers@[j], *n, out@[j]),
            decreases self.notifiers@.len() - i,
        {
            out.push(self.notifiers[i].accept(n));
            i = i + 1;
        }
        out
    }
}

} // verus!
