use monoryx::downloads::job::{cancelled_outcome, finish_outcome, JobState};
use monoryx::error::{HttpFailure, MonoryxError};

fn http(status: Option<u16>, status_text: &str, timeout: bool, connect: bool) -> MonoryxError {
    MonoryxError::Http(HttpFailure {
        status,
        status_text: status_text.into(),
        timeout,
        connect,
        text: "error sending request".into(),
    })
}

#[test]
fn http_failures_are_explained_by_status() {
    assert_eq!(http(Some(404), "404 Not Found", false, false).user_message(), "The requested file was not found (HTTP 404).");
    assert_eq!(http(Some(429), "429 Too Many Requests", false, false).user_message(), "Rate limited (HTTP 429). Please wait and retry.");
    assert_eq!(
        http(Some(503), "503 Service Unavailable", false, false).user_message(),
        "The server returned HTTP 503 Service Unavailable. Please retry."
    );
    assert_eq!(http(Some(403), "403 Forbidden", false, false).user_message(), "Network request failed: HTTP 403 Forbidden.");
    assert_eq!(http(None, "", true, false).user_message(), "The request timed out. Check your connection and retry.");
    assert_eq!(http(None, "", false, true).user_message(), "Couldn't connect. Check your internet connection.");
    assert_eq!(http(None, "", false, false).user_message(), "Network error: error sending request");
}

#[test]
fn errors_read_with_their_kind() {
    assert_eq!(MonoryxError::Io("denied".into()).message(), "I/O error: denied");
    assert_eq!(MonoryxError::InvalidConfig("bad".into()).message(), "Invalid configuration: bad");
    assert_eq!(MonoryxError::Other("plain".into()).message(), "plain");
    let mismatch = MonoryxError::HashMismatch { file: "a.jar".into(), expected: "aa".into(), actual: "bb".into() };
    assert_eq!(mismatch.message(), "Hash mismatch for a.jar: expected aa, got bb");
    assert_eq!(mismatch.user_message(), "File a.jar failed integrity verification and was discarded.");
    assert_eq!(
        MonoryxError::JavaNotFound("need 21".into()).user_message(),
        "No compatible Java installation found. need 21"
    );
    assert_eq!(MonoryxError::InvalidUsername("too short".into()).user_message(), "Invalid username: too short");
    assert_eq!(MonoryxError::Launch("no java".into()).user_message(), "Launch failed: no java");
}

#[test]
fn downloads_end_completed_failed_or_cancelled() {
    let (state, message) = finish_outcome(&Ok(()));
    assert_eq!(state, JobState::Completed);
    assert_eq!(message, "");
    let (state, message) = finish_outcome(&Err(MonoryxError::Download("HTTP 500".into())));
    assert_eq!(state, JobState::Failed);
    assert_eq!(message, "Download failed: HTTP 500");
    let (state, message) = cancelled_outcome();
    assert_eq!(state, JobState::Cancelled);
    assert_eq!(message, "Download cancelled");
}

use monoryx::downloads::job::{lifecycle_start, lifecycle_step, DownloadJob, LifecycleEvent};

#[test]
fn downloads_report_queued_active_then_one_end() {
    let (mut l, first) = lifecycle_start();
    assert_eq!(first.0, JobState::Queued);
    let a = lifecycle_step(&mut l, LifecycleEvent::Admitted).unwrap();
    assert_eq!(a.0, JobState::Active);
    let e = lifecycle_step(&mut l, LifecycleEvent::Ended(Ok(()))).unwrap();
    assert_eq!(e.0, JobState::Completed);
    assert!(lifecycle_step(&mut l, LifecycleEvent::Dropped).is_none());
    assert_eq!(l.state, JobState::Completed);
    let (mut l, _) = lifecycle_start();
    let d = lifecycle_step(&mut l, LifecycleEvent::Dropped).unwrap();
    assert_eq!((d.0, d.1.as_str()), (JobState::Cancelled, "Download cancelled"));
    let (mut l, _) = lifecycle_start();
    let f = lifecycle_step(&mut l, LifecycleEvent::Ended(Err(MonoryxError::Download("HTTP 500".into())))).unwrap();
    assert_eq!((f.0, f.1.as_str()), (JobState::Failed, "Download failed: HTTP 500"));
}

#[test]
fn random_ids_are_version_4_uuids() {
    let j = DownloadJob::new("x".into(), "u".into(), "/d".into());
    let id: Vec<char> = j.id.chars().collect();
    assert_eq!(id.len(), 36);
    for (i, c) in id.iter().enumerate() {
        if [8, 13, 18, 23].contains(&i) {
            assert_eq!(*c, '-');
        } else {
            assert!(c.is_ascii_hexdigit() && !c.is_ascii_uppercase());
        }
    }
    assert_eq!(id[14], '4');
    assert!(matches!(id[19], '8' | '9' | 'a' | 'b'));
}
