use webview_bridges::download::{
    resolve_destination, CallbackAnswer, DestinationDecision, DownloadSession,
};

#[test]
fn accepted_answer_resolves_to_its_path() {
    let answer = CallbackAnswer {
        accepted: true,
        path: String::from("/tmp/downloads/report.pdf"),
    };
    let outcome = resolve_destination(Some(answer));
    match outcome.decision {
        DestinationDecision::Destination { path } => {
            assert_eq!(path, "/tmp/downloads/report.pdf");
        }
        DestinationDecision::NoDestination => panic!("accept must yield a destination"),
    }
    assert!(!outcome.diagnostic);
}

#[test]
fn accepted_answer_keeps_a_rewritten_path() {
    // The callback may rewrite the suggested path before accepting; the
    // resolved destination is the path as the callback left it.
    let suggested = String::from("/tmp/downloads/archive.zip");
    let mut path = suggested.clone();
    path = format!("{}.part", path);
    let outcome = resolve_destination(Some(CallbackAnswer {
        accepted: true,
        path,
    }));
    match outcome.decision {
        DestinationDecision::Destination { path } => {
            assert_eq!(path, "/tmp/downloads/archive.zip.part");
            assert_ne!(path, suggested);
        }
        DestinationDecision::NoDestination => panic!("accept must yield a destination"),
    }
}

#[test]
fn rejected_answer_resolves_to_no_destination() {
    let outcome = resolve_destination(Some(CallbackAnswer {
        accepted: false,
        path: String::from("/tmp/downloads/unwanted.bin"),
    }));
    assert!(matches!(
        outcome.decision,
        DestinationDecision::NoDestination
    ));
    assert!(!outcome.diagnostic);
}

#[test]
fn missing_callback_rejects_with_diagnostic() {
    let outcome = resolve_destination(None);
    assert!(matches!(
        outcome.decision,
        DestinationDecision::NoDestination
    ));
    assert!(outcome.diagnostic);
}

#[test]
fn finished_download_notifies_success_without_path() {
    let mut session = DownloadSession::begin(String::from("https://host.example/file.tar"));
    let outcome = session.decide(Some(CallbackAnswer {
        accepted: true,
        path: String::from("/tmp/file.tar"),
    }));
    assert!(matches!(
        outcome.decision,
        DestinationDecision::Destination { .. }
    ));
    let notice = session.finish();
    assert_eq!(notice.url, "https://host.example/file.tar");
    assert!(notice.path.is_none());
    assert!(notice.success);
}

#[test]
fn failed_download_notifies_failure_without_path() {
    let mut session = DownloadSession::begin(String::from("https://host.example/file.tar"));
    let outcome = session.decide(None);
    assert!(outcome.diagnostic);
    let notice = session.fail();
    assert_eq!(notice.url, "https://host.example/file.tar");
    assert!(notice.path.is_none());
    assert!(!notice.success);
}

#[test]
fn undecided_download_can_still_fail() {
    // The engine may report a failure before ever asking for a destination.
    let mut session = DownloadSession::begin(String::from("https://host.example/gone"));
    let notice = session.fail();
    assert_eq!(notice.url, "https://host.example/gone");
    assert!(!notice.success);
}
