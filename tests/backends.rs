use you_have_mail_cli::config::{NTFYConfig, UnifiedPushConfig};
use you_have_mail_cli::console::StdOutNotifier;
use you_have_mail_cli::mailbox::{AcceptOutcome, MAILBOX_CAPACITY};
use you_have_mail_cli::multiplexer::{
    new_stdout_notifier, Backend, Delivery, NotifierMultiplexerBuilder,
};
use you_have_mail_cli::notification::{EmailInfo, Notification};
use you_have_mail_cli::push::PushMessage;

fn ntfy(name: &str) -> NTFYConfig {
    NTFYConfig { name: name.to_string(), url: "http://localhost:1/t".to_string(), auth_token: None }
}

fn error(msg: &str) -> Notification {
    Notification::Error(msg.to_string())
}

#[test]
fn mailbox_holds_twenty_then_is_full() {
    let b = ntfy("n").into_notifier();
    assert_eq!(b.notifier.capacity(), 20);
    assert_eq!(MAILBOX_CAPACITY, 20);
    for i in 0..20 {
        assert!(matches!(b.notifier.accept(&error(&i.to_string())), AcceptOutcome::Enqueued(_)));
    }
    assert_eq!(b.mailbox.len(), 20);
    assert!(b.mailbox.is_full());
}

#[test]
fn unsupported_kind_leaves_mailbox_empty() {
    let b = ntfy("n").into_notifier();
    let n = Notification::ProxyApplied("me@x".to_string(), "proxy".to_string());
    assert!(matches!(b.notifier.accept(&n), AcceptOutcome::Unsupported));
    assert_eq!(b.mailbox.len(), 0);
}

#[test]
fn accepted_message_is_an_own_copy() {
    let b = UnifiedPushConfig {
        name: "up".to_string(),
        url: "http://localhost:1/t".to_string(),
        auth_token: Some("tok".to_string()),
    }
    .into_notifier();
    assert_eq!(b.notifier.name(), "up");
    assert_eq!(b.worker.target().auth_token.as_deref(), Some("tok"));
    let n = Notification::NewEmail {
        account: "me@x".to_string(),
        backend: "proton".to_string(),
        emails: vec![EmailInfo { sender: "a@x".to_string(), subject: "hi".to_string() }],
    };
    assert!(matches!(b.notifier.accept(&n), AcceptOutcome::Enqueued(_)));
    drop(n);
    match b.mailbox.recv().unwrap() {
        PushMessage::NewEmail { account, backend, emails } => {
            assert_eq!(account, "me@x");
            assert_eq!(backend, "proton");
            assert_eq!(emails.len(), 1);
            assert_eq!(emails[0].sender, "a@x");
            assert_eq!(emails[0].subject, "hi");
        }
        other => panic!("unexpected message {other:?}"),
    }
}

#[test]
fn accept_after_worker_gone_hands_message_back() {
    let b = ntfy("n").into_notifier();
    drop(b.mailbox);
    match b.notifier.accept(&Notification::ConfigError("bad".to_string())) {
        AcceptOutcome::Disconnected { message: PushMessage::ConfigError { message }, log } => {
            assert_eq!(message, "bad");
            assert_eq!(log, "Failed to send notification to push thread (n): the worker has exited");
        }
        _ => panic!("the message is handed back"),
    }
}

#[test]
fn console_lines_of_each_kind() {
    let c = StdOutNotifier {};
    let n = Notification::NewEmail {
        account: "me@x".to_string(),
        backend: "proton".to_string(),
        emails: vec![
            EmailInfo { sender: "a@x".to_string(), subject: "hi".to_string() },
            EmailInfo { sender: "b@y".to_string(), subject: "yo".to_string() },
        ],
    };
    assert_eq!(
        c.lines(&n),
        vec![
            "Account me@x (proton) received 2 new email(s)".to_string(),
            "    Sender=a@x Subject=hi".to_string(),
            "    Sender=b@y Subject=yo".to_string(),
        ]
    );
    assert_eq!(
        c.lines(&Notification::AccountLoggedOut("me@x".to_string())),
        vec!["Account me@x Logged out or Session Expired".to_string()]
    );
    assert_eq!(
        c.lines(&Notification::AccountError("me@x".to_string(), "oops".to_string())),
        vec!["Account me@x ran into an error: oops".to_string()]
    );
    assert_eq!(
        c.lines(&Notification::ConfigError("bad".to_string())),
        vec!["Configuration error: bad".to_string()]
    );
    assert_eq!(c.lines(&error("boom")), vec!["An error occurred: boom".to_string()]);
    assert!(c
        .lines(&Notification::ProxyApplied("me@x".to_string(), "p".to_string()))
        .is_empty());
}

#[test]
fn multiplexer_hands_each_backend_the_notification_in_order() {
    let first = ntfy("first").into_notifier();
    let second = ntfy("second").into_notifier();
    let mux = NotifierMultiplexerBuilder::new()
        .with_notifier(new_stdout_notifier())
        .with_notifier(Backend::Push(first.notifier))
        .with_notifier(Backend::Push(second.notifier))
        .with_notifier(new_stdout_notifier())
        .build();
    assert_eq!(mux.len(), 4);
    let d = mux.notify(&error("boom"));
    assert_eq!(d.len(), 4);
    assert!(matches!(&d[0], Delivery::Printed(l) if l == &vec!["An error occurred: boom".to_string()]));
    assert!(matches!(&d[1], Delivery::Pushed(AcceptOutcome::Enqueued(_))));
    assert!(matches!(&d[2], Delivery::Pushed(AcceptOutcome::Enqueued(_))));
    assert!(matches!(&d[3], Delivery::Printed(_)));
    assert_eq!(first.mailbox.len(), 1);
    assert_eq!(second.mailbox.len(), 1);
}

#[test]
fn empty_multiplexer_does_nothing() {
    let mux = NotifierMultiplexerBuilder::new().build();
    assert_eq!(mux.len(), 0);
    assert!(mux.notify(&error("boom")).is_empty());
}
