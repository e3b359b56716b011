//! The verified download: a state machine that decides, step by step, whether to
//! fetch an artifact, whether the fetched bytes may be kept, and how to save them.
//! The caller performs each action and hands back what came of it.

use vstd::prelude::*;

use crypto::digest::Digest;

verus! {

/// What to do when a file already stands at the output path.
#[derive(Debug, Clone, Copy, PartialEq, Eq, Structural)]
pub enum OverwritePolicy {
    Allow,
    Forbid,
}

/// One artifact to download and where to put it.
#[derive(Debug, Clone, PartialEq, Eq)]
pub struct DownloadRequest {
    pub path: String,
    pub size: i64,
    pub url: String,
    pub sha1: String,
    pub policy: OverwritePolicy,
}

/// Why a download failed.
#[derive(Debug, Clone, PartialEq, Eq)]
pub enum DownloadError {
    /// The artifact could not be fetched.
    Transport(String),
    /// The fetched bytes do not have the expected digest.
    IntegrityMismatch,
    /// The file could not be written.
    Io(String),
}

/// How a download ended when it did not fail.
#[derive(Debug, Clone, Copy, PartialEq, Eq, Structural)]
pub enum DownloadOutcome {
    /// The verified bytes were saved at the output path.
    Saved,
    /// A file already stood at the path and the policy forbids replacing it.
    AlreadyPresent,
}

/// Where the download stands.
#[derive(Debug, Clone, Copy, PartialEq, Eq, Structural)]
pub enum DownloadState {
    CheckingPath,
    Fetching,
    Saving,
    Finished,
}

/// What came of the last action.
#[derive(Debug, Clone, PartialEq, Eq)]
pub enum DownloadEvent {
    PathChecked { exists: bool },
    Fetched { body: Vec<u8> },
    FetchFailed { message: String },
    Saved,
    SaveFailed { message: String },
}

/// What the caller is to do next.
#[derive(Debug, PartialEq, Eq)]
pub enum DownloadAction {
    /// Find out whether a file stands at `path`.
    CheckPath { path: String },
    /// Fetch the bytes at `url`.
    Fetch { url: String },
    /// Write `body` to `path`: as a new file only if `create_new`, else replacing any file there.
    Save { path: String, body: Vec<u8>, create_new: bool },
    /// Stop with this result.
    Finish { outcome: Result<DownloadOutcome, DownloadError> },
}

/// The lowercase hex SHA-1 digest of a byte sequence.
pub uninterp spec fn sha1_hex_of(bytes: Seq<u8>) -> Seq<char>;

/// Relies on rust-crypto's `Sha1` (`input`, then `Digest::result_str`): the SHA-1 digest of
/// the bytes in lowercase hex, which depends on the bytes alone.
#[verifier::external_body]
fn sha1_hex(bytes: &[u8]) -> (r: String)
    ensures
        r@ == sha1_hex_of(bytes@),
{
    let mut hasher = crypto::sha1::Sha1::new();
    hasher.input(bytes);
    hasher.result_str()
}

/// Whether a computed digest is the expected one: exact, case-sensitive equality.
pub fn digest_matches(expected: &str, computed: &str) -> (r: bool)
    ensures
        r == (expected@ == computed@),
{
    let e = expected.to_owned();
    let c = computed.to_owned();
    e == c
}

impl DownloadState {
    /// Whether `e` is what the action issued in this state can bring back.
    pub open spec fn accepts(self, e: DownloadEvent) -> bool {
        match self {
            DownloadState::CheckingPath => e is PathChecked,
            DownloadState::Fetching => e is Fetched || e is FetchFailed,
            DownloadState::Saving => e is Saved || e is SaveFailed,
            DownloadState::Finished => false,
        }
    }

    /// Executable form of `accepts`.
    pub fn takes(&self, e: &DownloadEvent) -> (r: bool)
        ensures
            r == self.accepts(*e),
    {
        match self {
            DownloadState::CheckingPath => matches!(e, DownloadEvent::PathChecked { .. }),
            DownloadState::Fetching => matches!(e, DownloadEvent::Fetched { .. } | DownloadEvent::FetchFailed { .. }),
            DownloadState::Saving => matches!(e, DownloadEvent::Saved | DownloadEvent::SaveFailed { .. }),
            DownloadState::Finished => false,
        }
    }
}

/// The first step of every download: look at the output path before anything else.
pub open spec fn start_spec(req: DownloadRequest) -> (DownloadState, DownloadAction) {
    (DownloadState::CheckingPath, DownloadAction::CheckPath { path: req.path })
}

/// The step taken from `state` on `event`.
pub open spec fn step_spec(req: DownloadRequest, state: DownloadState, event: DownloadEvent) -> (
    DownloadState,
    DownloadAction,
) {
    match event {
        DownloadEvent::PathChecked { exists } => {
            if req.policy == OverwritePolicy::Forbid && exists {
                (
                    DownloadState::Finished,
                    DownloadAction::Finish { outcome: Ok(DownloadOutcome::AlreadyPresent) },
                )
            } else {
                (DownloadState::Fetching, DownloadAction::Fetch { url: req.url })
            }
        },
        DownloadEvent::Fetched { body } => {
            if sha1_hex_of(body@) == req.sha1@ {
                (
                    DownloadState::Saving,
                    DownloadAction::Save {
                        path: req.path,
                        body,
                        create_new: req.policy == OverwritePolicy::Forbid,
                    },
                )
            } else {
                (
                    DownloadState::Finished,
                    DownloadAction::Finish { outcome: Err(DownloadError::IntegrityMismatch) },
                )
            }
        },
        DownloadEvent::FetchFailed { message } => (
            DownloadState::Finished,
            DownloadAction::Finish { outcome: Err(DownloadError::Transport(message)) },
        ),
        DownloadEvent::Saved => (
            DownloadState::Finished,
            DownloadAction::Finish { outcome: Ok(DownloadOutcome::Saved) },
        ),
        DownloadEvent::SaveFailed { message } => (
            DownloadState::Finished,
            DownloadAction::Finish { outcome: Err(DownloadError::Io(message)) },
        ),
    }
}

/// Begins a download.
pub fn start(req: &DownloadRequest) -> (r: (DownloadState, DownloadAction))
    ensures
        r == start_spec(*req),
{
    (DownloadState::CheckingPath, DownloadAction::CheckPath { path: req.path.clone() })
}

/// Takes one step: from where the download stands and what the last action brought,
/// to where it stands next and what to do.
pub fn next_step(req: &DownloadRequest, state: DownloadState, event: DownloadEvent) -> (r: (
    DownloadState,
    DownloadAction,
))
    requires
        state.accepts(event),
    ensures
        r == step_spec(*req, state, event),
{
    match event {
        DownloadEvent::PathChecked { exists } => {
            if req.policy == OverwritePolicy::Forbid && exists {
                (
                    DownloadState::Finished,
                    DownloadAction::Finish { outcome: Ok(DownloadOutcome::AlreadyPresent) },
                )
            } else {
                (DownloadState::Fetching, DownloadAction::Fetch { url: req.url.clone() })
            }
        },
        DownloadEvent::Fetched { body } => {
            let digest = sha1_hex(body.as_slice());
            if digest_matches(req.sha1.as_str(), digest.as_str()) {
                (
                    DownloadState::Saving,
                    DownloadAction::Save {
                        path: req.path.clone(),
                        body,
                        create_new: req.policy == OverwritePolicy::Forbid,
                    },
                )
            } else {
                (
                    DownloadState::Finished,
                    DownloadAction::Finish { outcome: Err(DownloadError::IntegrityMismatch) },
                )
            }
        },
        DownloadEvent::FetchFailed { message } => (
            DownloadState::Finished,
            DownloadAction::Finish { outcome: Err(DownloadError::Transport(message)) },
        ),
        DownloadEvent::Saved => (
            DownloadState::Finished,
            DownloadAction::Finish { outcome: Ok(DownloadOutcome::Saved) },
        ),
        DownloadEvent::SaveFailed { message } => (
            DownloadState::Finished,
            DownloadAction::Finish { outcome: Err(DownloadError::Io(message)) },
        ),
    }
}


/// Fetched bytes whose digest is not the expected one end the download with
/// `IntegrityMismatch`, and nothing is saved.
pub proof fn lemma_wrong_digest_fails(req: DownloadRequest, body: Vec<u8>)
    requires
        sha1_hex_of(body@) != req.sha1@,
    ensures
        step_spec(req, DownloadState::Fetching, DownloadEvent::Fetched { body }) == (
            DownloadState::Finished,
            DownloadAction::Finish { outcome: Err(DownloadError::IntegrityMismatch) },
        ),
{
}

/// A save is only ever asked for right after a fetch, of exactly the fetched bytes, and
/// only when their digest is the expected one.
pub proof fn lemma_save_only_verified(req: DownloadRequest, state: DownloadState, event: DownloadEvent)
    requires
        state.accepts(event),
        step_spec(req, state, event).1 is Save,
    ensures
        state == DownloadState::Fetching,
        event is Fetched,
        step_spec(req, state, event).1->body == event->body,
        sha1_hex_of(event->body@) == req.sha1@,
{
}

/// With overwriting forbidden and a file already at the path, the download checks the path,
/// then finishes successfully without fetching anything.
pub proof fn lemma_forbid_existing_skips_fetch(req: DownloadRequest)
    requires
        req.policy == OverwritePolicy::Forbid,
    ensures
        start_spec(req).1 is CheckPath,
        step_spec(req, start_spec(req).0, DownloadEvent::PathChecked { exists: true }) == (
            DownloadState::Finished,
            DownloadAction::Finish { outcome: Ok(DownloadOutcome::AlreadyPresent) },
        ),
{
}

} // verus!
