//! Configuration of the HTTP push backends, and their construction.
use vstd::prelude::*;
use crossbeam_channel::Receiver;
use crate::mailbox::{PushNotifier, open_push_mailbox};
use crate::push::{PushMessage, PushTarget};
use crate::worker::PushWorker;

verus! {

/// Configuration of an ntfy endpoint. It has no `Debug`: the token must not
/// reach diagnostics.
pub struct NTFYConfig {
    pub name: String,
    pub url: String,
    pub auth_token: Option<String>,
}

/// Configuration of a UnifiedPush distributor. It has no `Debug`, like the
/// ntfy configuration.
pub struct UnifiedPushConfig {
    pub name: String,
    pub url: String,
    pub auth_token: Option<String>,
}

/// A freshly built HTTP push backend: the side that accepts notifications,
/// the worker's decisions, and the mailbox that the worker drains.
pub struct PushBackend {
    pub notifier: PushNotifier,
    pub worker: PushWorker,
    pub mailbox: Receiver<PushMessage>,
}

/// What a push backend built from `name`, `url` and `auth_token` is.
pub open spec fn built_from(
    b: PushBackend,
    name: String,
    url: String,
    auth_token: Option<String>,
) -> bool {
    &&& b.notifier.wf()
    &&& b.notifier.name_view() == name@
    &&& b.worker.target_view() == (PushTarget { name, url, auth_token })
    &&& !b.worker.is_stopped()
}

/// Builds a push backend whose mailbox holds the fixed capacity.
pub fn new_push_backend(name: String, url: String, auth_token: Option<String>) -> (r: PushBackend)
    ensures
        built_from(r, name, url, auth_token),
{
    let (notifier, mailbox) = open_push_mailbox(name.clone());
    let worker = PushWorker::new(PushTarget { name, url, auth_token });
    PushBackend { notifier, worker, mailbox }
}

impl NTFYConfig {
    /// Builds the push backend this configuration describes.
    pub fn into_notifier(self) -> (r: PushBackend)
        ensures
            built_from(r, self.name, self.url, self.auth_token),
    {
        new_push_backend(self.name, self.url, self.auth_token)
    }
}

impl UnifiedPushConfig {
    /// Builds the push backend this configuration describes.
    pub fn into_notifier(self) -> (r: PushBackend)
        ensures
            built_from(r, self.name, self.url, self.auth_token),
    {
        new_push_backend(self.name, self.url, self.auth_token)
    }
}

} // verus!
