//! A file to download and the states a download passes through.
use crate::error::{user_message_spec, MonoryxError};
use crate::ids::{random_id, random_uuid_text};
use crate::text::{from_chars, lit};
use vstd::prelude::*;

verus! {

#[derive(Debug, Clone)]
pub struct DownloadJob {
    pub id: String,
    pub label: String,
    pub url: String,
    pub dest: String,
    pub expected_sha1: Option<String>,
    pub expected_sha512: Option<String>,
    pub expected_size: Option<u64>,
}

impl DownloadJob {
    /// A job with a fresh random (version 4) id and no expected hash or size.
    pub fn new(label: String, url: String, dest: String) -> (r: Self)
        ensures
            random_uuid_text(r.id@),
            r.label == label,
            r.url == url,
            r.dest == dest,
            r.expected_sha1 is None,
            r.expected_sha512 is None,
            r.expected_size is None,
    {
        DownloadJob {
            id: random_id(),
            label,
            url,
            dest,
            expected_sha1: None,
            expected_sha512: None,
            expected_size: None,
        }
    }

    /// The same job, expecting this SHA-1.
    pub fn with_sha1(self, sha1: String) -> (r: Self)
        ensures
            r == (DownloadJob { expected_sha1: Some(sha1), ..self }),
    {
        DownloadJob { expected_sha1: Some(sha1), ..self }
    }

    /// The same job, expecting this SHA-512.
    pub fn with_sha512(self, sha512: String) -> (r: Self)
        ensures
            r == (DownloadJob { expected_sha512: Some(sha512), ..self }),
    {
        DownloadJob { expected_sha512: Some(sha512), ..self }
    }

    /// The same job, expecting this many bytes.
    pub fn with_size(self, size: u64) -> (r: Self)
        ensures
            r == (DownloadJob { expected_size: Some(size), ..self }),
    {
        DownloadJob { expected_size: Some(size), ..self }
    }
}

#[derive(Debug, Clone, Copy, PartialEq, Eq)]
pub enum JobState {
    Queued,
    Active,
    Completed,
    Failed,
    Cancelled,
}

impl Default for JobState {
    /// A job starts queued.
    fn default() -> (r: Self)
        ensures
            r == JobState::Queued,
    {
        JobState::Queued
    }
}

/// The state a download ends in and the message shown with it: completed
/// with no message, or failed with what the user is told of the error.
pub fn finish_outcome(result: &Result<(), MonoryxError>) -> (r: (JobState, String))
    ensures
        result is Ok ==> r.0 == JobState::Completed && r.1@ == Seq::<char>::empty(),
        result matches Err(e) ==> r.0 == JobState::Failed && r.1@ == user_message_spec(*e),
{
    match result {
        Ok(()) => (JobState::Completed, String::new()),
        Err(e) => (JobState::Failed, e.user_message()),
    }
}

/// The state and message of a download that was dropped before it finished.
pub fn cancelled_outcome() -> (r: (JobState, String))
    ensures
        r.0 == JobState::Cancelled,
        r.1@ == "Download cancelled"@,
{
    (JobState::Cancelled, from_chars(&lit("Download cancelled")))
}

/// Whether a state ends a download.
pub open spec fn is_terminal(s: JobState) -> bool {
    s == JobState::Completed || s == JobState::Failed || s == JobState::Cancelled
}

/// A download's lifecycle as its observer sees it: the state last
/// reported, and whether the download has finished.
#[derive(Debug)]
pub struct DownloadLifecycle {
    pub state: JobState,
    pub finished: bool,
}

impl DownloadLifecycle {
    /// A download is finished exactly when its state ends it.
    pub open spec fn wf(&self) -> bool {
        self.finished <==> is_terminal(self.state)
    }
}

/// What happens to a download: it is admitted to run (it got one of the
/// download slots), it ended with a result, or it was dropped.
pub enum LifecycleEvent {
    Admitted,
    Ended(Result<(), MonoryxError>),
    Dropped,
}

/// A new download: queued, which is reported at once.
pub fn lifecycle_start() -> (r: (DownloadLifecycle, (JobState, String)))
    ensures
        r.0.wf(),
        r.0.state == JobState::Queued,
        !r.0.finished,
        r.1.0 == JobState::Queued,
        r.1.1@ == Seq::<char>::empty(),
{
    (DownloadLifecycle { state: JobState::Queued, finished: false }, (JobState::Queued, String::new()))
}

/// One event of a download, and what is reported of it, if anything: once
/// admitted it is active; when it ends it is completed (which only an
/// admitted download can be) or failed (see
/// `finish_outcome`); dropped before it ended it is cancelled (see
/// `cancelled_outcome`). A finished download reports nothing more and stays
/// as it ended.
pub fn lifecycle_step(l: &mut DownloadLifecycle, event: LifecycleEvent) -> (r: Option<(JobState, String)>)
    requires
        old(l).wf(),
        (event matches LifecycleEvent::Ended(Ok(_)) && !old(l).finished) ==> old(l).state == JobState::Active,
    ensures
        final(l).wf(),
        final(l).state == JobState::Completed ==> old(l).state == JobState::Active || old(l).state == JobState::Completed,
        old(l).finished ==> r is None && *final(l) == *old(l),
        !old(l).finished ==> match event {
            LifecycleEvent::Admitted => (r matches Some((s, m)) && s == JobState::Active && m@ == Seq::<char>::empty()
                && final(l).state == JobState::Active && !final(l).finished),
            LifecycleEvent::Ended(result) => (r matches Some((s, m)) && final(l).finished && s == final(l).state
                && match result {
                Ok(_) => s == JobState::Completed && m@ == Seq::<char>::empty(),
                Err(e) => s == JobState::Failed && m@ == user_message_spec(e),
            }),
            LifecycleEvent::Dropped => (r matches Some((s, m)) && s == JobState::Cancelled && m@ == "Download cancelled"@
                && final(l).finished && final(l).state == JobState::Cancelled),
        },
{
    if l.finished {
        return None;
    }
    match event {
        LifecycleEvent::Admitted => {
            l.state = JobState::Active;
            Some((JobState::Active, String::new()))
        },
        LifecycleEvent::Ended(result) => {
            let (s, m) = finish_outcome(&result);
            l.state = s;
            l.finished = true;
            Some((s, m))
        },
        LifecycleEvent::Dropped => {
            let (s, m) = cancelled_outcome();
            l.state = s;
            l.finished = true;
            Some((s, m))
        },
    }
}

} // verus!
