//! What an HTTP push backend sends: the mailbox message taken from a
//! notification, its rendered title and body, and the request built from them.
use vstd::prelude::*;
use vstd::string::*;
use crate::notification::{EmailInfo, Notification, duplicate_emails};
use crate::text::{decimal, push_decimal};

verus! {

/// Where and how an HTTP push backend delivers.
pub struct PushTarget {
    /// Name used in diagnostics.
    pub name: String,
    /// Endpoint that receives the POST requests.
    pub url: String,
    /// Bearer token sent with every request, if any.
    pub auth_token: Option<String>,
}

/// A notification as held in a push backend's mailbox: the backend's own copy
/// of the data that rendering needs.
#[derive(Debug)]
pub enum PushMessage {
    NewEmail { account: String, backend: String, emails: Vec<EmailInfo> },
    LoggedOut { account: String },
    AccountError { account: String, message: String },
    ConfigError { message: String },
    Error { message: String },
}

/// Whether `m` is the mailbox message for notification `n` (`None`: the
/// notification is not forwarded to push backends).
pub open spec fn message_for(n: Notification, m: Option<PushMessage>) -> bool {
    match n {
        Notification::NewEmail { account, backend, emails } => match m {
            Some(PushMessage::NewEmail { account: a, backend: b, emails: e }) =>
                a@ == account@ && b@ == backend@ && e@ == emails@,
            _ => false,
        },
        Notification::AccountLoggedOut(account) => match m {
            Some(PushMessage::LoggedOut { account: a }) => a@ == account@,
            _ => false,
        },
        Notification::AccountError(account, message) => match m {
            Some(PushMessage::AccountError { account: a, message: e }) =>
                a@ == account@ && e@ == message@,
            _ => false,
        },
        Notification::ConfigError(message) => match m {
            Some(PushMessage::ConfigError { message: e }) => e@ == message@,
            _ => false,
        },
        Notification::Error(message) => match m {
            Some(PushMessage::Error { message: e }) => e@ == message@,
            _ => false,
        },
        Notification::ProxyApplied(..) => m is None,
    }
}

/// Whether a notification kind is forwarded to push backends.
pub open spec fn is_forwarded(n: Notification) -> bool {
    !(n is ProxyApplied)
}

impl PushMessage {
    /// The mailbox message for `n`, or `None` for kinds that push backends drop.
    pub fn from_notification(n: &Notification) -> (r: Option<PushMessage>)
        ensures
            message_for(*n, r),
            r is Some <==> is_forwarded(*n),
    {
        match n {
            Notification::NewEmail { account, backend, emails } => Some(
                PushMessage::NewEmail {
                    account: account.clone(),
                    backend: backend.clone(),
                    emails: duplicate_emails(emails),
                },
            ),
            Notification::AccountLoggedOut(account) => Some(
                PushMessage::LoggedOut { account: account.clone() },
            ),
            Notification::AccountError(account, message) => Some(
                PushMessage::AccountError { account: account.clone(), message: message.clone() },
            ),
            Notification::ConfigError(message) => Some(
                PushMessage::ConfigError { message: message.clone() },
            ),
            Notification::Error(message) => Some(PushMessage::Error { message: message.clone() }),
            Notification::ProxyApplied(..) => None,
        }
    }
}

/// One body line per email: `**sender**: subject` and a newline.
pub open spec fn email_line(e: EmailInfo) -> Seq<char> {
    "**"@ + e.sender@ + "**: "@ + e.subject@ + "\n"@
}

/// The lines of all emails, in order, joined without separator.
pub open spec fn emails_body(emails: Seq<EmailInfo>) -> Seq<char>
    decreases emails.len(),
{
    if emails.len() == 0 {
        Seq::empty()
    } else {
        emails_body(emails.drop_last()) + email_line(emails.last())
    }
}

/// The title of a new-email message.
pub open spec fn new_email_title(account: Seq<char>, count: nat) -> Seq<char> {
    account + " has "@ + decimal(count) + " new message(s))"@
}

/// The title that a message is rendered with.
pub open spec fn title_of(m: PushMessage) -> Seq<char> {
    match m {
        PushMessage::NewEmail { account, emails, .. } => new_email_title(account@, emails@.len()),
        PushMessage::LoggedOut { account } => account@ + " logged out or session expired"@,
        PushMessage::AccountError { account, .. } => account@ + " encountered an error"@,
        PushMessage::ConfigError { .. } => "Server Config Error"@,
        PushMessage::Error { .. } => "Server Error"@,
    }
}

/// The body that a message is rendered with, if it has one.
pub open spec fn body_of(m: PushMessage) -> Option<Seq<char>> {
    match m {
        PushMessage::NewEmail { emails, .. } => Some(emails_body(emails@)),
        PushMessage::LoggedOut { .. } => None,
        PushMessage::AccountError { message, .. } => Some(message@),
        PushMessage::ConfigError { message } => Some(message@),
        PushMessage::Error { message } => Some(message@),
    }
}

/// Error-class messages are flagged as urgent.
pub open spec fn is_error_class(m: PushMessage) -> bool {
    m is AccountError || m is ConfigError || m is Error
}

/// The text view of an optional string.
pub open spec fn opt_view(o: Option<String>) -> Option<Seq<char>> {
    match o {
        Some(s) => Some(s@),
        None => None,
    }
}

/// A message rendered for delivery.
pub struct Rendered {
    pub title: String,
    pub body: Option<String>,
    pub urgent: bool,
}

/// Renders the body lines of `emails`.
pub fn render_emails(emails: &Vec<EmailInfo>) -> (r: String)
    ensures
        r@ == emails_body(emails@),
{
    let mut out = String::new();
    let mut i: usize = 0;
    while i < emails.len()
        invariant
            i <= emails@.len(),
            out@ == emails_body(emails@.subrange(0, i as int)),
        decreases emails@.len() - i,
    {
        let e = &emails[i];
        out.append("**");
        out.append(e.sender.as_str());
        out.append("**: ");
        out.append(e.subject.as_str());
        out.append("\n");
        proof {
            let next = emails@.subrange(0, i + 1);
            assert(next.drop_last() =~= emails@.subrange(0, i as int));
            assert(next.last() == *e);
            assert(out@ =~= emails_body(next));
        }
        i = i + 1;
    }
    assert(emails@.subrange(0, emails@.len() as int) =~= emails@);
    out
}

/// Renders the title, body and urgency of a mailbox message.
pub fn render(m: &PushMessage) -> (r: Rendered)
    ensures
        r.title@ == title_of(*m),
        opt_view(r.body) == body_of(*m),
        r.urgent == is_error_class(*m),
{
    match m {
        PushMessage::NewEmail { account, emails, .. } => {
            let mut title = account.clone();
            title.append(" has ");
            push_decimal(&mut title, emails.len());
            title.append(" new message(s))");
            Rendered { title, body: Some(render_emails(emails)), urgent: false }
        },
        PushMessage::LoggedOut { account } => {
            let title = account.clone().concat(" logged out or session expired");
            Rendered { title, body: None, urgent: false }
        },
        PushMessage::AccountError { account, message } => {
            let title = account.clone().concat(" encountered an error");
            Rendered { title, body: Some(message.clone()), urgent: true }
        },
        PushMessage::ConfigError { message } => Rendered {
            title: String::from_str("Server Config Error"),
            body: Some(message.clone()),
            urgent: true,
        },
        PushMessage::Error { message } => Rendered {
            title: String::from_str("Server Error"),
            body: Some(message.clone()),
            urgent: true,
        },
    }
}

/// One request header.
pub struct Header {
    pub name: String,
    pub value: String,
}

/// A POST request to a push endpoint.
pub struct PushRequest {
    pub url: String,
    pub headers: Vec<Header>,
    pub payload: String,
}

/// The headers of a request as (name, value) texts.
pub open spec fn headers_view(hs: Seq<Header>) -> Seq<(Seq<char>, Seq<char>)> {
    hs.map_values(|h: Header| (h.name@, h.value@))
}

/// The headers sent for a rendered message: the protocol marker, then the
/// bearer authorization if a token is set, then the urgency tag for
/// error-class messages, then the title when a body is sent.
pub open spec fn request_headers(
    token: Option<Seq<char>>,
    title: Seq<char>,
    has_body: bool,
    urgent: bool,
) -> Seq<(Seq<char>, Seq<char>)> {
    let marker = seq![("X-UnifiedPush"@, "1"@)];
    let auth = match token {
        Some(t) => seq![("authorization"@, "Bearer "@ + t)],
        None => Seq::empty(),
    };
    let tags = if urgent {
        seq![("X-Tags"@, "exclamation"@)]
    } else {
        Seq::empty()
    };
    let titled = if has_body {
        seq![("X-Title"@, title)]
    } else {
        Seq::empty()
    };
    marker + auth + tags + titled
}

/// The payload: the body if there is one, else the title.
pub open spec fn payload_of(title: Seq<char>, body: Option<Seq<char>>) -> Seq<char> {
    match body {
        Some(b) => b,
        None => title,
    }
}

/// Whether a header of that name is among `hs`.
pub open spec fn has_header(hs: Seq<(Seq<char>, Seq<char>)>, name: Seq<char>) -> bool {
    exists|i: int| 0 <= i < hs.len() && #[trigger] hs[i].0 == name
}

fn push_header(hs: &mut Vec<Header>, name: &str, value: String)
    ensures
        headers_view(final(hs)@) == headers_view(old(hs)@).push((name@, value@)),
{
    let ghost before = hs@;
    hs.push(Header { name: String::from_str(name), value });
    assert(headers_view(hs@) =~= headers_view(before).push((name@, value@)));
}

/// Builds the request that delivers a rendered message to `target`.
pub fn build_request(target: &PushTarget, rendered: Rendered) -> (r: PushRequest)
    ensures
        r.url@ == target.url@,
        headers_view(r.headers@) == request_headers(
            opt_view(target.auth_token),
            rendered.title@,
            rendered.body is Some,
            rendered.urgent,
        ),
        r.payload@ == payload_of(rendered.title@, opt_view(rendered.body)),
{
    let mut headers: Vec<Header> = Vec::new();
    push_header(&mut headers, "X-UnifiedPush", String::from_str("1"));
    match &target.auth_token {
        Some(token) => {
            let value = String::from_str("Bearer ").concat(token.as_str());
            push_header(&mut headers, "authorization", value);
        },
        None => {},
    }
    if rendered.urgent {
        push_header(&mut headers, "X-Tags", String::from_str("exclamation"));
    }
    let payload = match rendered.body {
        Some(body) => {
            push_header(&mut headers, "X-Title", rendered.title);
            body
        },
        None => rendered.title,
    };
    let r = PushRequest { url: target.url.clone(), headers, payload };
    assert(headers_view(r.headers@) =~= request_headers(
        opt_view(target.auth_token),
        rendered.title@,
        rendered.body is Some,
        rendered.urgent,
    ));
    r
}

/// The request that delivers mailbox message `m` to `target`.
pub open spec fn request_headers_for(target: PushTarget, m: PushMessage) -> Seq<(Seq<char>, Seq<char>)> {
    request_headers(
        opt_view(target.auth_token),
        title_of(m),
        body_of(m) is Some,
        is_error_class(m),
    )
}

/// Renders `m` and builds the request that delivers it to `target`.
pub fn request_for(target: &PushTarget, m: &PushMessage) -> (r: PushRequest)
    ensures
        r.url@ == target.url@,
        headers_view(r.headers@) == request_headers_for(*target, *m),
        r.payload@ == payload_of(title_of(*m), body_of(*m)),
{
    build_request(target, render(m))
}

/// A request carries the urgency tag exactly when its message is of the
/// error class (account error, configuration error, other error).
pub proof fn lemma_urgency_tag_iff_error_class(target: PushTarget, m: PushMessage)
    ensures
        has_header(request_headers_for(target, m), "X-Tags"@) <==> is_error_class(m),
{
    reveal_strlit("X-Tags");
    reveal_strlit("X-UnifiedPush");
    reveal_strlit("authorization");
    reveal_strlit("X-Title");
    let hs = request_headers_for(target, m);
    if is_error_class(m) {
        let k = if target.auth_token is Some { 2int } else { 1int };
        assert(hs[k].0 == "X-Tags"@);
    } else {
        assert forall|i: int| 0 <= i < hs.len() implies #[trigger] hs[i].0 != "X-Tags"@ by {
            assert(hs[i].0.len() != "X-Tags"@.len());
        }
    }
}

} // verus!
