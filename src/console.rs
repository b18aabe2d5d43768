//! The console backend: the lines it writes for each notification.
use vstd::prelude::*;
use vstd::string::*;
use crate::notification::{EmailInfo, Notification};
use crate::text::{decimal, push_decimal};

verus! {

/// Writes notifications to standard output.
#[derive(Debug, Copy, Clone)]
pub struct StdOutNotifier {}

/// The text views of a sequence of strings.
pub open spec fn texts(v: Seq<String>) -> Seq<Seq<char>> {
    v.map_values(|s: String| s@)
}

/// The line written for one email.
pub open spec fn console_email_line(e: EmailInfo) -> Seq<char> {
    "    Sender="@ + e.sender@ + " Subject="@ + e.subject@
}

/// The lines written for each of `emails`, in order.
pub open spec fn console_email_lines(emails: Seq<EmailInfo>) -> Seq<Seq<char>> {
    emails.map_values(|e: EmailInfo| console_email_line(e))
}

/// The lines the console backend writes for a notification; kinds it does
/// not report give none.
pub open spec fn console_lines(n: Notification) -> Seq<Seq<char>> {
    match n {
        Notification::NewEmail { account, backend, emails } => seq![
            "Account "@ + account@ + " ("@ + backend@ + ") received "@ + decimal(emails@.len())
                + " new email(s)"@,
        ] + console_email_lines(emails@),
        Notification::AccountLoggedOut(account) => seq![
            "Account "@ + account@ + " Logged out or Session Expired"@,
        ],
        Notification::AccountError(account, error) => seq![
            "Account "@ + account@ + " ran into an error: "@ + error@,
        ],
        Notification::ProxyApplied(..) => Seq::empty(),
        Notification::ConfigError(error) => seq!["Configuration error: "@ + error@],
        Notification::Error(error) => seq!["An error occurred: "@ + error@],
    }
}

fn push_line(lines: &mut Vec<String>, line: String)
    ensures
        texts(final(lines)@) == texts(old(lines)@).push(line@),
{
    let ghost before = lines@;
    lines.push(line);
    assert(texts(lines@) =~= texts(before).push(line@));
}

impl StdOutNotifier {
    /// The lines to write for `n`, in order.
    pub fn lines(&self, n: &Notification) -> (r: Vec<String>)
        ensures
            texts(r@) == console_lines(*n),
    {
        let mut lines: Vec<String> = Vec::new();
        match n {
            Notification::NewEmail { account, backend, emails } => {
                let mut head = String::from_str("Account ");
                head.append(account.as_str());
                head.append(" (");
                head.append(backend.as_str());
                head.append(") received ");
                push_decimal(&mut head, emails.len());
                head.append(" new email(s)");
                push_line(&mut lines, head);
                let mut i: usize = 0;
                while i < emails.len()
                    invariant
                        i <= emails@.len(),
                        texts(lines@) == seq![head@] + console_email_lines(
                            emails@.subrange(0, i as int),
                        ),
                    decreases emails@.len() - i,
                {
                    let e = &emails[i];
                    let mut line = String::from_str("    Sender=");
                    line.append(e.sender.as_str());
                    line.append(" Subject=");
                    line.append(e.subject.as_str());
                    push_line(&mut lines, line);
                    proof {
                        assert(console_email_lines(emails@.subrange(0, i + 1)) =~= console_email_lines(
                            emails@.subrange(0, i as int),
                        ).push(console_email_line(*e)));
                        assert(texts(lines@) =~= seq![head@] + console_email_lines(
                            emails@.subrange(0, i + 1),
                        ));
                    }
                    i = i + 1;
                }
                assert(emails@.subrange(0, emails@.len() as int) =~= emails@);
            },
            Notification::AccountLoggedOut(account) => {
                let mut line = String::from_str("Account ");
                line.append(account.as_str());
                line.append(" Logged out or Session Expired");
                push_line(&mut lines, line);
            },
            Notification::AccountError(account, error) => {
                let mut line = String::from_str("Account ");
                line.append(account.as_str());
                line.append(" ran into an error: ");
                line.append(error.as_str());
                push_line(&mut lines, line);
            },
            Notification::ProxyApplied(..) => {},
            Notification::ConfigError(error) => {
                let line = String::from_str("Configuration error: ").concat(error.as_str());
                push_line(&mut lines, line);
            },
            Notification::Error(error) => {
                let line = String::from_str("An error occurred: ").concat(error.as_str());
                push_line(&mut lines, line);
            },
        }
        assert(texts(lines@) =~= console_lines(*n));
        lines
    }
}

} // verus!
