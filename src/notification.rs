//! The domain events that the account poller hands to the notifiers.
use vstd::prelude::*;

verus! {

/// Sender and subject of one newly arrived email.
#[derive(Debug)]
pub struct EmailInfo {
    pub sender: String,
    pub subject: String,
}

impl EmailInfo {
    /// An independent copy of this record.
    pub fn duplicate(&self) -> (r: EmailInfo)
        ensures
            r == *self,
    {
        EmailInfo { sender: self.sender.clone(), subject: self.subject.clone() }
    }
}

/// An event reported by the account poller.
#[derive(Debug)]
pub enum Notification {
    /// New emails arrived for `account`, served by the mail `backend`.
    NewEmail { account: String, backend: String, emails: Vec<EmailInfo> },
    /// The account's session ended.
    AccountLoggedOut(String),
    /// The account ran into an error; the second field describes it.
    AccountError(String, String),
    /// A proxy setting was applied to the account; the second field names the proxy.
    ProxyApplied(String, String),
    /// The poller's configuration is broken.
    ConfigError(String),
    /// Any other failure of the poller.
    Error(String),
}

/// Copies a list of email records one by one.
pub fn duplicate_emails(emails: &Vec<EmailInfo>) -> (r: Vec<EmailInfo>)
    ensures
        r@ == emails@,
{
    let mut out: Vec<EmailInfo> = Vec::new();
    let mut i: usize = 0;
    while i < emails.len()
        invariant
            i <= emails@.len(),
            out@ == emails@.subrange(0, i as int),
        decreases emails@.len() - i,
    {
        out.push(emails[i].duplicate());
        i = i + 1;
        assert(out@ =~= emails@.subrange(0, i as int));
    }
    assert(out@ =~= emails@);
    out
}

} // verus!
