//! One acquisition from launch to terminal event: the retry chain over
//! credentials, the events published at each step, and the guarantee
//! that a session ends in exactly one terminal event.

use vstd::prelude::*;

use crate::cache::file_url;
use crate::cache::spec_file_url;
use crate::credentials::spec_browser_tag;
use crate::credentials::browser_tag;
use crate::credentials::Credential;
use crate::events::already_exists_event;
use crate::events::checking_event;
use crate::events::completed_event;
use crate::events::error_event;
use crate::events::spec_is_terminal;
use crate::events::DownloadProgress;
use crate::events::DownloadStatus;
use crate::text::spec_str_contains;
use crate::ytdlp::failure_message;
use crate::ytdlp::is_age_restriction_error;
use crate::ytdlp::spec_is_age_restriction_error;

verus! {

/// Where a session stands: not yet started, waiting for the outcome of
/// attempt `attempt` (0 is the credential-less attempt, `k >= 1` runs
/// `credentials[k - 1]`), or finished.
#[derive(Clone, Copy, Debug, PartialEq, Eq, Structural)]
pub enum Phase {
    Ready,
    Waiting { attempt: usize },
    Done,
}

/// What one extraction attempt came to: the produced file's name, or the
/// collected stderr and exit-status text.
pub enum AttemptOutcome {
    Success { file_name: String },
    Failure { stderr: String, status: String },
}

/// What the caller is to do next: run the extractor once with the given
/// credential, or stop — the session is over.
pub enum SessionAction {
    Attempt { credential: Option<Credential> },
    Finished { success: bool },
}

/// One step of the session: events to publish, in order, then the action.
pub struct SessionStep {
    pub events: Vec<DownloadProgress>,
    pub action: SessionAction,
}

/// A batch of events none of which is terminal.
pub open spec fn non_terminal_batch(b: Seq<DownloadProgress>) -> bool {
    forall|i: int| 0 <= i < b.len() ==> !spec_is_terminal(#[trigger] b[i].status)
}

/// A batch whose last event is the only terminal one.
pub open spec fn closing_batch(b: Seq<DownloadProgress>) -> bool {
    &&& b.len() >= 1
    &&& spec_is_terminal(b.last().status)
    &&& forall|i: int| 0 <= i < b.len() - 1 ==> !spec_is_terminal(#[trigger] b[i].status)
}

/// The human line announcing a retry with a credential.
pub open spec fn spec_trying_message(c: Credential) -> Seq<char> {
    match c {
        Credential::CookieFile(_) => "Trying with cookies.txt file..."@,
        Credential::FromBrowser(b) => "Trying with "@ + spec_browser_tag(b) + " cookies..."@,
    }
}

/// The human line announcing the start of an attempt.
pub open spec fn spec_checking_message(c: Option<Credential>) -> Seq<char> {
    match c {
        None => "Checking video availability..."@,
        Some(Credential::CookieFile(_)) => "Checking video with cookies.txt..."@,
        Some(Credential::FromBrowser(b)) => "Checking video with "@ + spec_browser_tag(b)
            + " cookies..."@,
    }
}

/// The terminal diagnostic when nothing can authenticate an
/// age-restricted video.
pub open spec fn spec_no_credentials_message() -> Seq<char> {
    "Age-restricted video. No cookies.txt or supported browsers found. Please set a cookies.txt file in Settings."@
}

/// The terminal diagnostic when every credential failed.
pub open spec fn spec_exhausted_message() -> Seq<char> {
    "Age-restricted video. Please set a valid cookies.txt file in Settings. See the help (?) for instructions."@
}

fn trying_message(c: &Credential) -> (r: String)
    ensures
        r@ == spec_trying_message(*c),
{
    match c {
        Credential::CookieFile(_) => String::from_str("Trying with cookies.txt file..."),
        Credential::FromBrowser(b) => {
            let mut r = String::from_str("Trying with ");
            r.append(browser_tag(*b));
            r.append(" cookies...");
            r
        },
    }
}

fn checking_message(c: &Option<Credential>) -> (r: String)
    ensures
        r@ == spec_checking_message(*c),
{
    match c {
        None => String::from_str("Checking video availability..."),
        Some(Credential::CookieFile(_)) => String::from_str("Checking video with cookies.txt..."),
        Some(Credential::FromBrowser(b)) => {
            let mut r = String::from_str("Checking video with ");
            r.append(browser_tag(*b));
            r.append(" cookies...");
            r
        },
    }
}

fn duplicate_credential(c: &Credential) -> (r: Credential)
    ensures
        r == *c,
{
    match c {
        Credential::CookieFile(p) => Credential::CookieFile(p.clone()),
        Credential::FromBrowser(b) => Credential::FromBrowser(*b),
    }
}

/// One acquisition for one video id, driving the credential retry chain.
/// The caller runs the extractor between steps and feeds the outcome
/// back.
pub struct AcquisitionSession {
    pub video_id: String,
    /// The retry chain, cookie jar first, then browsers in priority
    /// order.
    pub credentials: Vec<Credential>,
    pub phase: Phase,
}

impl AcquisitionSession {
    /// The phase counter never runs past the credential list.
    pub open spec fn wf(&self) -> bool {
        match self.phase {
            Phase::Waiting { attempt } => attempt <= self.credentials@.len(),
            _ => true,
        }
    }

    /// A new session for `video_id` with the given retry chain.
    pub fn new(video_id: String, credentials: Vec<Credential>) -> (s: AcquisitionSession)
        ensures
            s.video_id == video_id,
            s.credentials == credentials,
            s.phase == Phase::Ready,
            s.wf(),
    {
        AcquisitionSession { video_id, credentials, phase: Phase::Ready }
    }

    /// Starts the session. With the file already cached (its name in
    /// `cache_hit`), one terminal `already-exists` event ends the
    /// session; otherwise a `checking` event opens the credential-less
    /// first attempt.
    pub fn start(&mut self, cache_hit: Option<&String>) -> (r: SessionStep)
        requires
            old(self).phase == Phase::Ready,
            old(self).wf(),
        ensures
            final(self).video_id == old(self).video_id,
            final(self).credentials == old(self).credentials,
            final(self).wf(),
            match cache_hit {
                Some(name) => {
                    &&& final(self).phase == Phase::Done
                    &&& r.action == SessionAction::Finished { success: true }
                    &&& closing_batch(r.events@)
                    &&& r.events@.len() == 1
                    &&& r.events@[0].status == DownloadStatus::AlreadyExists
                    &&& r.events@[0].video_id == old(self).video_id
                    &&& r.events@[0].message matches Some(m) && m@ == spec_file_url(name@)
                },
                None => {
                    &&& final(self).phase == (Phase::Waiting { attempt: 0 })
                    &&& r.action == (SessionAction::Attempt { credential: Option::None })
                    &&& non_terminal_batch(r.events@)
                    &&& r.events@.len() == 1
                    &&& r.events@[0].status == DownloadStatus::Checking
                    &&& r.events@[0].video_id == old(self).video_id
                    &&& r.events@[0].message matches Some(m) && m@ == spec_checking_message(
                        Option::None,
                    )
                },
            },
    {
        match cache_hit {
            Some(name) => {
                self.phase = Phase::Done;
                let mut events: Vec<DownloadProgress> = Vec::new();
                events.push(
                    already_exists_event(self.video_id.clone(), file_url(name.as_str())),
                );
                SessionStep { events, action: SessionAction::Finished { success: true } }
            },
            None => {
                self.phase = Phase::Waiting { attempt: 0 };
                let mut events: Vec<DownloadProgress> = Vec::new();
                events.push(
                    checking_event(self.video_id.clone(), checking_message(&Option::None)),
                );
                SessionStep { events, action: SessionAction::Attempt { credential: Option::None } }
            },
        }
    }

    /// Feeds back the outcome of the running attempt. Success closes the
    /// session with the `completed` event. An age-restricted first
    /// failure opens the credential walk; later failures advance it;
    /// an exhausted chain or a non-age failure closes the session with
    /// one `error` event.
    pub fn on_outcome(&mut self, outcome: AttemptOutcome) -> (r: SessionStep)
        requires
            old(self).phase matches Phase::Waiting { attempt: _ },
            old(self).wf(),
        ensures
            final(self).video_id == old(self).video_id,
            final(self).credentials == old(self).credentials,
            final(self).wf(),
            forall|i: int|
                0 <= i < r.events@.len() ==> #[trigger] r.events@[i].video_id == old(self).video_id,
            match r.action {
                SessionAction::Finished { success } => final(self).phase == Phase::Done
                    && closing_batch(r.events@),
                SessionAction::Attempt { credential: _ } => final(self).phase matches Phase::Waiting
                    { attempt: _ } && non_terminal_batch(r.events@),
            },
            ({
                let attempt = old(self).phase->attempt;
                let creds = old(self).credentials@;
                match outcome {
                    AttemptOutcome::Success { file_name } => {
                        &&& r.action == (SessionAction::Finished { success: true })
                        &&& r.events@.len() == 1
                        &&& r.events@[0].status == DownloadStatus::Completed
                        &&& r.events@[0].message matches Some(m) && m@ == spec_file_url(file_name@)
                    },
                    AttemptOutcome::Failure { stderr, status } => {
                        if attempt == 0 && !spec_is_age_restriction_error(stderr@) {
                            &&& r.action == (SessionAction::Finished { success: false })
                            &&& r.events@.len() == 1
                            &&& r.events@[0].status == DownloadStatus::Error
                            &&& r.events@[0].message matches Some(m) && m@ == (if stderr@.len()
                                > 0 {
                                "ERROR: "@ + stderr@
                            } else {
                                "yt-dlp exited with status: "@ + status@
                            })
                        } else if attempt < creds.len() {
                            &&& r.action == (SessionAction::Attempt {
                                credential: Some(creds[attempt as int]),
                            })
                            &&& final(self).phase == (Phase::Waiting { attempt: (attempt + 1) as usize })
                            &&& r.events@.len() == 2
                            &&& r.events@[0].status == DownloadStatus::Checking
                            &&& r.events@[0].message matches Some(m0) && m0@ == spec_trying_message(
                                creds[attempt as int],
                            )
                            &&& r.events@[1].status == DownloadStatus::Checking
                            &&& r.events@[1].message matches Some(m1) && m1@
                                == spec_checking_message(Some(creds[attempt as int]))
                        } else {
                            &&& r.action == (SessionAction::Finished { success: false })
                            &&& r.events@.len() == 1
                            &&& r.events@[0].status == DownloadStatus::Error
                            &&& r.events@[0].message matches Some(m) && m@ == (if attempt == 0 {
                                spec_no_credentials_message()
                            } else {
                                spec_exhausted_message()
                            })
                        }
                    },
                }
            }),
    {
        let attempt = match self.phase {
            Phase::Waiting { attempt } => attempt,
            _ => 0,
        };
        match outcome {
            AttemptOutcome::Success { file_name } => {
                self.phase = Phase::Done;
                let mut events: Vec<DownloadProgress> = Vec::new();
                events.push(
                    completed_event(self.video_id.clone(), file_url(file_name.as_str())),
                );
                SessionStep { events, action: SessionAction::Finished { success: true } }
            },
            AttemptOutcome::Failure { stderr, status } => {
                if attempt == 0 && !is_age_restriction_error(stderr.as_str()) {
                    self.phase = Phase::Done;
                    let mut events: Vec<DownloadProgress> = Vec::new();
                    events.push(
                        error_event(
                            self.video_id.clone(),
                            failure_message(stderr.as_str(), status.as_str()),
                        ),
                    );
                    SessionStep { events, action: SessionAction::Finished { success: false } }
                } else if attempt < self.credentials.len() {
                    let cred = duplicate_credential(&self.credentials[attempt]);
                    self.phase = Phase::Waiting { attempt: attempt + 1 };
                    let mut events: Vec<DownloadProgress> = Vec::new();
                    events.push(checking_event(self.video_id.clone(), trying_message(&cred)));
                    let cred_opt = Some(cred);
                    events.push(
                        checking_event(self.video_id.clone(), checking_message(&cred_opt)),
                    );
                    SessionStep { events, action: SessionAction::Attempt { credential: cred_opt } }
                } else {
                    self.phase = Phase::Done;
                    let message = if attempt == 0 {
                        String::from_str(
                            "Age-restricted video. No cookies.txt or supported browsers found. Please set a cookies.txt file in Settings.",
                        )
                    } else {
                        String::from_str(
                            "Age-restricted video. Please set a valid cookies.txt file in Settings. See the help (?) for instructions.",
                        )
                    };
                    let mut events: Vec<DownloadProgress> = Vec::new();
                    events.push(error_event(self.video_id.clone(), message));
                    SessionStep { events, action: SessionAction::Finished { success: false } }
                }
            },
        }
    }
}

/// Terminal-event uniqueness: a session's published trace — any number
/// of non-terminal batches closed by one closing batch — holds exactly
/// one terminal event, and it is the last event of the trace.
pub proof fn lemma_terminal_event_unique(batches: Seq<Seq<DownloadProgress>>)
    requires
        batches.len() >= 1,
        forall|i: int| 0 <= i < batches.len() - 1 ==> non_terminal_batch(#[trigger] batches[i]),
        closing_batch(batches.last()),
    ensures
        closing_batch(batches.flatten()),
    decreases batches.len(),
{
    if batches.len() == 1 {
        batches.lemma_flatten_one_element();
        assert(batches.flatten() == batches[0]);
    } else {
        let head = batches.first();
        let tail = batches.drop_first();
        assert(batches.flatten() == head + tail.flatten());
        assert(tail.last() == batches.last());
        assert(forall|i: int|
            0 <= i < tail.len() - 1 ==> non_terminal_batch(#[trigger] tail[i]));
        lemma_terminal_event_unique(tail);
        let flat = batches.flatten();
        let tf = tail.flatten();
        assert(flat.len() == head.len() + tf.len());
        assert(flat.last() == tf.last());
        assert forall|i: int| 0 <= i < flat.len() - 1 implies !spec_is_terminal(
            #[trigger] flat[i].status,
        ) by {
            if i < head.len() {
                assert(flat[i] == head[i]);
                assert(non_terminal_batch(head));
            } else {
                assert(flat[i] == tf[i - head.len()]);
            }
        }
    }
}

} // verus!
