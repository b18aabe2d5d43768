use you_have_mail_cli::config::NTFYConfig;
use you_have_mail_cli::notification::Notification;
use you_have_mail_cli::worker::{describe_outcome, DeliveryOutcome, WorkerAction, WorkerEvent};

fn backend() -> you_have_mail_cli::config::PushBackend {
    NTFYConfig { name: "n".to_string(), url: "http://localhost:1/t".to_string(), auth_token: None }
        .into_notifier()
}

#[test]
fn buffered_messages_are_all_attempted_before_exit() {
    let mut b = backend();
    for i in 0..5 {
        b.notifier.accept(&Notification::Error(format!("e{i}")));
    }
    drop(b.notifier);
    let mut attempts = 0;
    let mut payloads = Vec::new();
    loop {
        let ev = match b.mailbox.recv() {
            Ok(m) => WorkerEvent::Received(m),
            Err(_) => WorkerEvent::Disconnected,
        };
        match b.worker.handle(ev) {
            WorkerAction::Post(r) => {
                attempts += 1;
                payloads.push(r.payload);
                let outcome = DeliveryOutcome::Transport { message: "refused".to_string() };
                assert!(matches!(b.worker.handle(WorkerEvent::Completed(outcome)), WorkerAction::Log(_)));
            }
            WorkerAction::Exit => break,
            WorkerAction::Log(_) | WorkerAction::Idle => {}
        }
    }
    assert_eq!(attempts, 5);
    assert_eq!(payloads, vec!["e0", "e1", "e2", "e3", "e4"]);
    assert!(b.worker.stopped());
    let late = WorkerEvent::Received(you_have_mail_cli::push::PushMessage::Error {
        message: "late".to_string(),
    });
    assert!(matches!(b.worker.handle(late), WorkerAction::Idle));
    assert!(matches!(b.worker.handle(WorkerEvent::Disconnected), WorkerAction::Idle));
}

#[test]
fn transport_failure_does_not_stop_next_message() {
    let mut b = backend();
    b.notifier.accept(&Notification::Error("first".to_string()));
    b.notifier.accept(&Notification::Error("second".to_string()));
    let first = b.mailbox.recv().unwrap();
    assert!(matches!(b.worker.handle(WorkerEvent::Received(first)), WorkerAction::Post(_)));
    let failed = DeliveryOutcome::Transport { message: "dns".to_string() };
    match b.worker.handle(WorkerEvent::Completed(failed)) {
        WorkerAction::Log(l) => assert_eq!(l, "Failed to post push request (n): Transport error=dns"),
        _ => panic!("a failure is reported"),
    }
    let second = b.mailbox.recv().unwrap();
    match b.worker.handle(WorkerEvent::Received(second)) {
        WorkerAction::Post(r) => assert_eq!(r.payload, "second"),
        _ => panic!("the next message is attempted"),
    }
    assert!(!b.worker.stopped());
}

#[test]
fn outcome_reports() {
    let name = "phone".to_string();
    assert_eq!(describe_outcome(&name, &DeliveryOutcome::Delivered), None);
    assert_eq!(
        describe_outcome(&name, &DeliveryOutcome::Status { code: 503, body: "busy".to_string() })
            .as_deref(),
        Some("Failed to post push request (phone): HttpCode=503 Response=busy")
    );
    assert_eq!(
        describe_outcome(&name, &DeliveryOutcome::Transport { message: "timeout".to_string() })
            .as_deref(),
        Some("Failed to post push request (phone): Transport error=timeout")
    );
}

#[test]
fn success_is_not_logged() {
    let mut b = backend();
    assert!(matches!(
        b.worker.handle(WorkerEvent::Completed(DeliveryOutcome::Delivered)),
        WorkerAction::Idle
    ));
}
