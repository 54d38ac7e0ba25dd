use vstd::prelude::*;
use vstd::string::*;
use crate::error::ProvisionError;
use crate::text::join3;

verus! {

/// The status with which the broker hands out a token or an asset.
pub const STATUS_READY: u16 = 200;

/// The status with which the broker says that the asset is not there yet.
pub const STATUS_PENDING: u16 = 202;

/// The seconds that the broker has to answer a call; a call that takes
/// longer counts as unanswered.
pub const CALL_TIMEOUT: u64 = 5;

/// Where a fetch stands.
#[derive(Clone, Copy, Debug, PartialEq, Eq, Structural)]
pub enum FetchPhase {
    /// A token has been asked for.
    Requesting,
    /// The requester is being shown the token.
    Announcing,
    /// The broker has been asked for the asset.
    Polling,
    /// The asset was not ready; the fetch sleeps before it asks again.
    Waiting,
    /// The asset is being written to the instance's storage.
    Writing,
    /// The asset is stored.
    Done,
    /// The fetch has ended without an asset.
    Failed(ProvisionError),
}

/// The state of one fetch: the token that the broker issued, the directory
/// that the asset goes to, and how often the broker has answered "pending",
/// counted up to the last step of the backoff schedule.
#[derive(Clone, Debug, PartialEq, Eq)]
pub struct UploadSession {
    pub phase: FetchPhase,
    pub token: String,
    pub directory: String,
    pub cursor: u8,
}

/// A session with its texts as sequences of characters.
pub struct UploadSessionView {
    pub phase: FetchPhase,
    pub token: Seq<char>,
    pub directory: Seq<char>,
    pub cursor: int,
}

impl View for UploadSession {
    type V = UploadSessionView;

    open spec fn view(&self) -> UploadSessionView {
        UploadSessionView {
            phase: self.phase,
            token: self.token@,
            directory: self.directory@,
            cursor: self.cursor as int,
        }
    }
}

/// What happened since the last action.
#[derive(Clone, Debug, PartialEq, Eq)]
pub enum FetchEvent {
    /// The broker answered the request for a token.
    Generated { status: u16, token: String },
    /// The requester has been shown the token.
    Announced,
    /// The broker answered the request for the asset.
    Polled { status: u16, bytes: Vec<u8> },
    /// The broker did not answer in time, or could not be reached.
    Unreachable,
    /// The sleep is over.
    Slept,
    /// The asset was written.
    Written,
    /// The asset could not be written.
    WriteFailed,
    /// The requester could not be reached.
    AnnounceFailed,
}

/// An event with its texts and bytes as sequences.
pub enum FetchEventView {
    Generated { status: int, token: Seq<char> },
    Announced,
    Polled { status: int, bytes: Seq<u8> },
    Unreachable,
    Slept,
    Written,
    WriteFailed,
    AnnounceFailed,
}

impl View for FetchEvent {
    type V = FetchEventView;

    open spec fn view(&self) -> FetchEventView {
        match self {
            FetchEvent::Generated { status, token } => FetchEventView::Generated {
                status: *status as int,
                token: token@,
            },
            FetchEvent::Announced => FetchEventView::Announced,
            FetchEvent::Polled { status, bytes } => FetchEventView::Polled {
                status: *status as int,
                bytes: bytes@,
            },
            FetchEvent::Unreachable => FetchEventView::Unreachable,
            FetchEvent::Slept => FetchEventView::Slept,
            FetchEvent::Written => FetchEventView::Written,
            FetchEvent::WriteFailed => FetchEventView::WriteFailed,
            FetchEvent::AnnounceFailed => FetchEventView::AnnounceFailed,
        }
    }
}

/// What is to be done next.
#[derive(Clone, Debug, PartialEq, Eq)]
pub enum FetchAction {
    /// Ask the broker for a token.
    Generate,
    /// Show the requester the token under which the asset is to be uploaded.
    Announce { token: String },
    /// Ask the broker for the asset of this token.
    Poll { token: String },
    /// Sleep for so many seconds.
    Sleep { seconds: u64 },
    /// Write these bytes, as they are, to this path.
    Write { path: String, bytes: Vec<u8> },
    /// Nothing more: the asset is stored under this file name.
    Finish { file: String },
    /// Nothing more: the fetch has failed.
    Fail { error: ProvisionError },
    /// Nothing: the fetch had ended before.
    Idle,
}

/// An action with its texts and bytes as sequences.
pub enum FetchActionView {
    Generate,
    Announce { token: Seq<char> },
    Poll { token: Seq<char> },
    Sleep { seconds: int },
    Write { path: Seq<char>, bytes: Seq<u8> },
    Finish { file: Seq<char> },
    Fail { error: ProvisionError },
    Idle,
}

impl View for FetchAction {
    type V = FetchActionView;

    open spec fn view(&self) -> FetchActionView {
        match self {
            FetchAction::Generate => FetchActionView::Generate,
            FetchAction::Announce { token } => FetchActionView::Announce { token: token@ },
            FetchAction::Poll { token } => FetchActionView::Poll { token: token@ },
            FetchAction::Sleep { seconds } => FetchActionView::Sleep { seconds: *seconds as int },
            FetchAction::Write { path, bytes } => FetchActionView::Write {
                path: path@,
                bytes: bytes@,
            },
            FetchAction::Finish { file } => FetchActionView::Finish { file: file@ },
            FetchAction::Fail { error } => FetchActionView::Fail { error: *error },
            FetchAction::Idle => FetchActionView::Idle,
        }
    }
}

/// The seconds to sleep after the broker has answered "pending", given how
/// many such answers came before: 10, 10, 30, and 60 from then on.
pub open spec fn schedule(pending_before: nat) -> int {
    if pending_before < 2 {
        10
    } else if pending_before == 2 {
        30
    } else {
        60
    }
}

/// The cursor after one more "pending": it stops at the schedule's last step.
pub open spec fn advance(cursor: int) -> int {
    if cursor < 3 {
        cursor + 1
    } else {
        3
    }
}

/// Where an asset is stored: in the directory, under its token.
pub open spec fn asset_path(directory: Seq<char>, token: Seq<char>) -> Seq<char> {
    directory + "/"@ + token
}

/// Whether the fetch has ended.
pub open spec fn ended(phase: FetchPhase) -> bool {
    phase is Done || phase is Failed
}

/// The error with which a fetch ends when `event` comes in `phase`, if it
/// ends with one: the broker's failures in the phases that wait for it, a
/// storage failure while writing, and an internal error for an event that
/// the phase does not wait for.
pub open spec fn failure_of(phase: FetchPhase, event: FetchEventView) -> Option<ProvisionError> {
    match (phase, event) {
        (FetchPhase::Done, _) => None,
        (FetchPhase::Failed(_), _) => None,
        (FetchPhase::Requesting, FetchEventView::Generated { status, token }) => if status
            == STATUS_READY {
            None
        } else {
            Some(ProvisionError::BrokerUnavailable)
        },
        (FetchPhase::Requesting, FetchEventView::Unreachable) => Some(
            ProvisionError::BrokerUnavailable,
        ),
        (FetchPhase::Announcing, FetchEventView::Announced) => None,
        (FetchPhase::Polling, FetchEventView::Polled { status, bytes }) => if status == STATUS_READY
            || status == STATUS_PENDING {
            None
        } else {
            Some(ProvisionError::BrokerUnavailable)
        },
        (FetchPhase::Polling, FetchEventView::Unreachable) => Some(
            ProvisionError::BrokerUnavailable,
        ),
        (FetchPhase::Waiting, FetchEventView::Slept) => None,
        (FetchPhase::Writing, FetchEventView::Written) => None,
        (FetchPhase::Writing, FetchEventView::WriteFailed) => Some(ProvisionError::StorageFailure),
        _ => Some(ProvisionError::Internal),
    }
}

/// The session after `event`.
pub open spec fn next_session(s: UploadSessionView, event: FetchEventView) -> UploadSessionView {
    match failure_of(s.phase, event) {
        Some(error) => UploadSessionView { phase: FetchPhase::Failed(error), ..s },
        None => match (s.phase, event) {
            (FetchPhase::Requesting, FetchEventView::Generated { status, token }) => {
                UploadSessionView { phase: FetchPhase::Announcing, token, ..s }
            },
            (FetchPhase::Announcing, _) => UploadSessionView { phase: FetchPhase::Polling, ..s },
            (FetchPhase::Polling, FetchEventView::Polled { status, bytes }) => if status
                == STATUS_READY {
                UploadSessionView { phase: FetchPhase::Writing, ..s }
            } else {
                UploadSessionView { phase: FetchPhase::Waiting, cursor: advance(s.cursor), ..s }
            },
            (FetchPhase::Waiting, _) => UploadSessionView { phase: FetchPhase::Polling, ..s },
            (FetchPhase::Writing, _) => UploadSessionView { phase: FetchPhase::Done, ..s },
            _ => s,
        },
    }
}

/// The action that `event` calls for.
pub open spec fn next_action(s: UploadSessionView, event: FetchEventView) -> FetchActionView {
    match failure_of(s.phase, event) {
        Some(error) => FetchActionView::Fail { error },
        None => match (s.phase, event) {
            (FetchPhase::Requesting, FetchEventView::Generated { status, token }) => {
                FetchActionView::Announce { token }
            },
            (FetchPhase::Announcing, _) => FetchActionView::Poll { token: s.token },
            (FetchPhase::Polling, FetchEventView::Polled { status, bytes }) => if status
                == STATUS_READY {
                FetchActionView::Write { path: asset_path(s.directory, s.token), bytes }
            } else {
                FetchActionView::Sleep { seconds: schedule(s.cursor as nat) }
            },
            (FetchPhase::Waiting, _) => FetchActionView::Poll { token: s.token },
            (FetchPhase::Writing, _) => FetchActionView::Finish { file: s.token },
            _ => FetchActionView::Idle,
        },
    }
}

/// The seconds to sleep at this step of the schedule.
pub fn backoff_delay(cursor: u8) -> (seconds: u64)
    ensures
        seconds == schedule(cursor as nat),
{
    if cursor < 2 {
        10
    } else if cursor == 2 {
        30
    } else {
        60
    }
}

impl UploadSession {
    /// A session as it is when the token is asked for.
    pub open spec fn fresh(directory: Seq<char>) -> UploadSessionView {
        UploadSessionView {
            phase: FetchPhase::Requesting,
            token: Seq::empty(),
            directory,
            cursor: 0,
        }
    }

    /// The cursor lies within the schedule.
    pub open spec fn well_formed(&self) -> bool {
        self.cursor <= 3
    }

    /// Starts a fetch into `directory`: the first thing to do is to ask the
    /// broker for a token.
    pub fn start(directory: String) -> (r: (UploadSession, FetchAction))
        ensures
            r.0@ == Self::fresh(directory@),
            r.0.well_formed(),
            r.1@ == FetchActionView::Generate,
    {
        (
            UploadSession {
                phase: FetchPhase::Requesting,
                token: String::new(),
                directory,
                cursor: 0,
            },
            FetchAction::Generate,
        )
    }

    /// Ends the fetch with `error`.
    fn fail(&mut self, error: ProvisionError) -> (action: FetchAction)
        ensures
            final(self)@ == (UploadSessionView { phase: FetchPhase::Failed(error), ..old(self)@ }),
            final(self).well_formed() == old(self).well_formed(),
            action@ == (FetchActionView::Fail { error }),
    {
        self.phase = FetchPhase::Failed(error);
        FetchAction::Fail { error }
    }

    /// Takes in what happened and says what to do next.
    pub fn step(&mut self, event: FetchEvent) -> (action: FetchAction)
        ensures
            old(self).well_formed() ==> final(self).well_formed(),
            final(self)@ == next_session(old(self)@, event@),
            action@ == next_action(old(self)@, event@),
    {
        match self.phase {
            FetchPhase::Done => FetchAction::Idle,
            FetchPhase::Failed(_) => FetchAction::Idle,
            FetchPhase::Requesting => match event {
                FetchEvent::Generated { status, token } => {
                    if status == STATUS_READY {
                        self.phase = FetchPhase::Announcing;
                        self.token = token;
                        FetchAction::Announce { token: self.token.clone() }
                    } else {
                        self.fail(ProvisionError::BrokerUnavailable)
                    }
                },
                FetchEvent::Unreachable => self.fail(ProvisionError::BrokerUnavailable),
                _ => self.fail(ProvisionError::Internal),
            },
            FetchPhase::Announcing => match event {
                FetchEvent::Announced => {
                    self.phase = FetchPhase::Polling;
                    FetchAction::Poll { token: self.token.clone() }
                },
                _ => self.fail(ProvisionError::Internal),
            },
            FetchPhase::Polling => match event {
                FetchEvent::Polled { status, bytes } => {
                    if status == STATUS_READY {
                        self.phase = FetchPhase::Writing;
                        FetchAction::Write {
                            path: join3(self.directory.as_str(), "/", self.token.as_str()),
                            bytes,
                        }
                    } else if status == STATUS_PENDING {
                        let seconds = backoff_delay(self.cursor);
                        self.phase = FetchPhase::Waiting;
                        self.cursor = if self.cursor < 3 {
                            self.cursor + 1
                        } else {
                            3
                        };
                        FetchAction::Sleep { seconds }
                    } else {
                        self.fail(ProvisionError::BrokerUnavailable)
                    }
                },
                FetchEvent::Unreachable => self.fail(ProvisionError::BrokerUnavailable),
                _ => self.fail(ProvisionError::Internal),
            },
            FetchPhase::Waiting => match event {
                FetchEvent::Slept => {
                    self.phase = FetchPhase::Polling;
                    FetchAction::Poll { token: self.token.clone() }
                },
                _ => self.fail(ProvisionError::Internal),
            },
            FetchPhase::Writing => match event {
                FetchEvent::Written => {
                    self.phase = FetchPhase::Done;
                    FetchAction::Finish { file: self.token.clone() }
                },
                FetchEvent::WriteFailed => self.fail(ProvisionError::StorageFailure),
                _ => self.fail(ProvisionError::Internal),
            },
        }
    }
}

} // verus!
