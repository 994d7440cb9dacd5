//! The update agent: deciding from two digests whether the binary must be
//! replaced, and leading the replacement step by step.
//!
//! The agent itself fetches, reads, stops processes and moves files; what it
//! does next is decided here. A new binary is fetched beside the old one, the
//! old one is deleted, the new one is renamed onto its place and started. Any
//! step that fails ends the attempt; the next round starts anew. Stopping the
//! running program is tried, and the replacement goes on even where that fails.

use crate::digest::{is_hex_digest, sha256_hex, sha256_hex_of};
use crate::text::{
    chars_of, lower, lowered_chars, same_chars, to_lower_char, trimmed, trimmed_range,
};
use vstd::prelude::*;

verus! {

/// Seconds between two rounds of the agent: four hours.
pub const UPDATE_INTERVAL_SECS: u64 = 14_400;

/// The file name of the program that the agent keeps up to date.
pub const DAILY_EXE_NAME: &'static str = "daily.exe";

/// The image name of the processes that the agent stops before it replaces
/// the program.
pub const DAILY_PROC_NAME: &'static str = "daily.exe";

/// The file name under which the new binary is kept until it takes the place
/// of the old one.
pub const STAGED_EXE_NAME: &'static str = "daily.exe.new";

/// The binary on disk, as the agent found it.
#[derive(Clone, Debug, PartialEq, Eq)]
pub enum LocalBinary {
    /// There is no binary.
    Absent,
    /// The bytes of the binary.
    Present(Vec<u8>),
    /// There is a binary, and it could not be read.
    Unreadable,
}

/// The binary on disk, as a mathematical value.
pub enum BinaryView {
    Absent,
    Present(Seq<u8>),
    Unreadable,
}

impl View for LocalBinary {
    type V = BinaryView;

    open spec fn view(&self) -> BinaryView {
        match *self {
            LocalBinary::Absent => BinaryView::Absent,
            LocalBinary::Present(bytes) => BinaryView::Present(bytes@),
            LocalBinary::Unreadable => BinaryView::Unreadable,
        }
    }
}

/// Why a round could not tell whether an update is due.
#[derive(Clone, Copy, Debug, PartialEq, Eq, Structural)]
pub enum CheckFailure {
    /// The remote digest could not be fetched.
    HashUnavailable,
    /// The remote digest is empty.
    EmptyRemoteHash,
    /// The binary on disk could not be read.
    LocalUnreadable,
}

/// The stages of a replacement.
#[derive(Clone, Copy, Debug, PartialEq, Eq, Structural)]
pub enum UpdateStage {
    Download,
    Remove,
    Rename,
    Launch,
}

/// How a round ended.
#[derive(Clone, Copy, Debug, PartialEq, Eq, Structural)]
pub enum RoundOutcome {
    /// The binary on disk is the published one.
    UpToDate,
    /// The binary was replaced and started.
    Updated,
    /// The round could not tell whether an update is due.
    CheckFailed(CheckFailure),
    /// The replacement was given up at this stage.
    UpdateFailed(UpdateStage),
}

/// What the agent is in the middle of.
#[derive(Clone, Debug, PartialEq, Eq)]
pub enum UpdatePhase {
    /// Sleeping until the next round.
    Idle,
    /// The remote digest is being fetched.
    FetchingHash,
    /// The binary on disk is being read, to be held against `remote`.
    ReadingLocal { remote: String },
    /// The running program is being stopped.
    Terminating,
    /// The new binary is being fetched into the staging file.
    Downloading,
    /// The old binary is being deleted.
    Removing,
    /// The staging file is being renamed onto the place of the old binary.
    Renaming,
    /// The new binary is being started.
    Launching,
}

/// A phase of the agent, as a mathematical value.
pub enum UpdatePhaseView {
    Idle,
    FetchingHash,
    ReadingLocal { remote: Seq<char> },
    Terminating,
    Downloading,
    Removing,
    Renaming,
    Launching,
}

impl View for UpdatePhase {
    type V = UpdatePhaseView;

    open spec fn view(&self) -> UpdatePhaseView {
        match *self {
            UpdatePhase::Idle => UpdatePhaseView::Idle,
            UpdatePhase::FetchingHash => UpdatePhaseView::FetchingHash,
            UpdatePhase::ReadingLocal { remote } => UpdatePhaseView::ReadingLocal {
                remote: remote@,
            },
            UpdatePhase::Terminating => UpdatePhaseView::Terminating,
            UpdatePhase::Downloading => UpdatePhaseView::Downloading,
            UpdatePhase::Removing => UpdatePhaseView::Removing,
            UpdatePhase::Renaming => UpdatePhaseView::Renaming,
            UpdatePhase::Launching => UpdatePhaseView::Launching,
        }
    }
}

/// What happened since the last step.
#[derive(Clone, Debug, PartialEq, Eq)]
pub enum UpdateEvent {
    /// The sleep ended.
    Tick,
    /// The remote digest was asked for; `None` where it could not be fetched.
    HashFetched(Option<String>),
    /// The binary on disk was looked at.
    LocalRead(LocalBinary),
    /// The running program was asked to stop; `true` where every process of
    /// that name is gone.
    Terminated(bool),
    /// The download ended; `true` where the staging file holds the new binary.
    Downloaded(bool),
    /// The old binary was to be deleted; `true` where none is left.
    Removed(bool),
    /// The staging file was to be renamed; `true` where it was.
    Renamed(bool),
    /// The new binary was to be started; `true` where it runs.
    Launched(bool),
}

/// An event of the agent, as a mathematical value.
pub enum UpdateEventView {
    Tick,
    HashFetched(Option<Seq<char>>),
    LocalRead(BinaryView),
    Terminated(bool),
    Downloaded(bool),
    Removed(bool),
    Renamed(bool),
    Launched(bool),
}

impl View for UpdateEvent {
    type V = UpdateEventView;

    open spec fn view(&self) -> UpdateEventView {
        match *self {
            UpdateEvent::Tick => UpdateEventView::Tick,
            UpdateEvent::HashFetched(Some(text)) => UpdateEventView::HashFetched(Some(text@)),
            UpdateEvent::HashFetched(None) => UpdateEventView::HashFetched(None),
            UpdateEvent::LocalRead(local) => UpdateEventView::LocalRead(local@),
            UpdateEvent::Terminated(done) => UpdateEventView::Terminated(done),
            UpdateEvent::Downloaded(done) => UpdateEventView::Downloaded(done),
            UpdateEvent::Removed(done) => UpdateEventView::Removed(done),
            UpdateEvent::Renamed(done) => UpdateEventView::Renamed(done),
            UpdateEvent::Launched(done) => UpdateEventView::Launched(done),
        }
    }
}

/// What the agent is to do next.
#[derive(Clone, Copy, Debug, PartialEq, Eq, Structural)]
pub enum UpdateAction {
    /// Sleep for `UPDATE_INTERVAL_SECS` seconds; the round ended with
    /// `outcome`.
    Sleep { outcome: RoundOutcome },
    /// Fetch the remote digest.
    FetchHash,
    /// Read the binary on disk.
    ReadLocal,
    /// Stop every process whose image name is `DAILY_PROC_NAME`.
    Terminate,
    /// Fetch the new binary into the staging file.
    Download,
    /// Delete the old binary if there is one.
    RemoveOld,
    /// Rename the staging file onto the place of the old binary.
    Rename,
    /// Start the new binary, detached.
    Launch,
}

/// A digest as it is compared: without white space around it, in small
/// letters.
pub open spec fn normal_digest(text: Seq<char>) -> Seq<char> {
    lower(trimmed(text))
}

/// Writes a digest as it is compared.
pub fn normalize_digest(text: &str) -> (normal: Vec<char>)
    ensures
        normal@ == normal_digest(text@),
{
    let chars = chars_of(text);
    let range = trimmed_range(&chars);
    let mut normal: Vec<char> = Vec::new();
    let mut i: usize = range.0;
    while i < range.1
        invariant
            range.0 <= i <= range.1 <= chars.len(),
            chars@.subrange(range.0 as int, range.1 as int) == trimmed(text@),
            normal@ == lower(trimmed(text@)).take(i - range.0),
        decreases range.1 - i,
    {
        normal.push(to_lower_char(chars[i]));
        i += 1;
    }
    normal
}

/// Whether an update is due, given the text of the remote digest and the
/// digest of the binary on disk, `None` where there is no binary.
///
/// An empty remote digest is an error. With no binary on disk an update is
/// due. Otherwise one is due where the two digests differ, capital and small
/// letters taken as the same.
pub open spec fn digest_decision(remote: Seq<char>, local_digest: Option<Seq<char>>) -> Result<
    bool,
    CheckFailure,
> {
    if normal_digest(remote).len() == 0 {
        Err(CheckFailure::EmptyRemoteHash)
    } else {
        match local_digest {
            Some(digest) => Ok(normal_digest(remote) != lower(digest)),
            None => Ok(true),
        }
    }
}

/// Whether an update is due, given the text of the remote digest and the
/// binary on disk.
pub open spec fn update_decision(remote: Seq<char>, local: BinaryView) -> Result<
    bool,
    CheckFailure,
> {
    match local {
        BinaryView::Absent => digest_decision(remote, None),
        BinaryView::Present(bytes) => digest_decision(remote, Some(sha256_hex_of(bytes))),
        BinaryView::Unreadable => if normal_digest(remote).len() == 0 {
            Err(CheckFailure::EmptyRemoteHash)
        } else {
            Err(CheckFailure::LocalUnreadable)
        },
    }
}

/// Decides whether an update is due from the text of the remote digest and
/// the digest of the binary on disk, `None` where there is no binary.
pub fn compare_digests(remote: &str, local_digest: Option<&str>) -> (due: Result<
    bool,
    CheckFailure,
>)
    ensures
        due == digest_decision(
            remote@,
            match local_digest {
                Some(digest) => Some(digest@),
                None => None,
            },
        ),
{
    let normal = normalize_digest(remote);
    if normal.len() == 0 {
        return Err(CheckFailure::EmptyRemoteHash);
    }
    match local_digest {
        Some(digest) => {
            let local = lowered_chars(digest);
            Ok(!same_chars(&normal, &local))
        },
        None => Ok(true),
    }
}

/// Decides whether an update is due from the text of the remote digest and
/// the binary on disk.
///
/// Where the digest of the binary on disk is the remote digest, no update is
/// due: a digest is never empty.
pub fn check_for_updates(remote: &str, local: &LocalBinary) -> (due: Result<bool, CheckFailure>)
    ensures
        due == update_decision(remote@, local@),
        local@ matches BinaryView::Present(bytes) && normal_digest(remote@) == lower(
            sha256_hex_of(bytes),
        ) ==> due == Ok::<bool, CheckFailure>(false),
{
    match local {
        LocalBinary::Absent => compare_digests(remote, None),
        LocalBinary::Present(bytes) => {
            let digest = sha256_hex(bytes.as_slice());
            assert(lower(digest@).len() == 64);
            compare_digests(remote, Some(digest.as_str()))
        },
        LocalBinary::Unreadable => {
            let normal = normalize_digest(remote);
            if normal.len() == 0 {
                Err(CheckFailure::EmptyRemoteHash)
            } else {
                Err(CheckFailure::LocalUnreadable)
            }
        },
    }
}

/// The step that ends a round.
pub open spec fn round_ends(outcome: RoundOutcome) -> (UpdatePhaseView, UpdateAction) {
    (UpdatePhaseView::Idle, UpdateAction::Sleep { outcome })
}

/// One step of the agent: the phase and the action that follow from a phase
/// and an event.
///
/// While idle, any event starts a round. A round first fetches the remote
/// digest, then reads the binary on disk, and goes on to the replacement only
/// where an update is due. In the replacement only the success a phase waits
/// for leads on, but for stopping the running program, which is tried and
/// never waited on. Any other event ends the round.
pub open spec fn update_transition(phase: UpdatePhaseView, event: UpdateEventView) -> (
    UpdatePhaseView,
    UpdateAction,
) {
    match phase {
        UpdatePhaseView::Idle => (UpdatePhaseView::FetchingHash, UpdateAction::FetchHash),
        UpdatePhaseView::FetchingHash => match event {
            UpdateEventView::HashFetched(Some(remote)) => if normal_digest(remote).len() == 0 {
                round_ends(RoundOutcome::CheckFailed(CheckFailure::EmptyRemoteHash))
            } else {
                (UpdatePhaseView::ReadingLocal { remote }, UpdateAction::ReadLocal)
            },
            _ => round_ends(RoundOutcome::CheckFailed(CheckFailure::HashUnavailable)),
        },
        UpdatePhaseView::ReadingLocal { remote } => match event {
            UpdateEventView::LocalRead(local) => match update_decision(remote, local) {
                Ok(true) => (UpdatePhaseView::Terminating, UpdateAction::Terminate),
                Ok(false) => round_ends(RoundOutcome::UpToDate),
                Err(failure) => round_ends(RoundOutcome::CheckFailed(failure)),
            },
            _ => round_ends(RoundOutcome::CheckFailed(CheckFailure::LocalUnreadable)),
        },
        UpdatePhaseView::Terminating => (UpdatePhaseView::Downloading, UpdateAction::Download),
        UpdatePhaseView::Downloading => match event {
            UpdateEventView::Downloaded(true) => (
                UpdatePhaseView::Removing,
                UpdateAction::RemoveOld,
            ),
            _ => round_ends(RoundOutcome::UpdateFailed(UpdateStage::Download)),
        },
        UpdatePhaseView::Removing => match event {
            UpdateEventView::Removed(true) => (UpdatePhaseView::Renaming, UpdateAction::Rename),
            _ => round_ends(RoundOutcome::UpdateFailed(UpdateStage::Remove)),
        },
        UpdatePhaseView::Renaming => match event {
            UpdateEventView::Renamed(true) => (UpdatePhaseView::Launching, UpdateAction::Launch),
            _ => round_ends(RoundOutcome::UpdateFailed(UpdateStage::Rename)),
        },
        UpdatePhaseView::Launching => match event {
            UpdateEventView::Launched(true) => round_ends(RoundOutcome::Updated),
            _ => round_ends(RoundOutcome::UpdateFailed(UpdateStage::Launch)),
        },
    }
}

/// Ends a round with `outcome`.
fn end_round(outcome: RoundOutcome) -> (next: (UpdatePhase, UpdateAction))
    ensures
        (next.0@, next.1) == round_ends(outcome),
{
    (UpdatePhase::Idle, UpdateAction::Sleep { outcome })
}

/// Decides what the update agent does next.
///
/// Where the binary on disk has the remote digest, the round ends at once:
/// nothing is stopped, fetched or replaced.
pub fn update_step(phase: UpdatePhase, event: UpdateEvent) -> (next: (UpdatePhase, UpdateAction))
    ensures
        (next.0@, next.1) == update_transition(phase@, event@),
        phase@ matches UpdatePhaseView::ReadingLocal { remote } && event@
            matches UpdateEventView::LocalRead(BinaryView::Present(bytes)) && normal_digest(remote)
            == lower(sha256_hex_of(bytes)) ==> (next.0@, next.1) == round_ends(
            RoundOutcome::UpToDate,
        ),
{
    match phase {
        UpdatePhase::Idle => (UpdatePhase::FetchingHash, UpdateAction::FetchHash),
        UpdatePhase::FetchingHash => match event {
            UpdateEvent::HashFetched(Some(remote)) => {
                let normal = normalize_digest(remote.as_str());
                if normal.len() == 0 {
                    end_round(RoundOutcome::CheckFailed(CheckFailure::EmptyRemoteHash))
                } else {
                    (UpdatePhase::ReadingLocal { remote }, UpdateAction::ReadLocal)
                }
            },
            _ => end_round(RoundOutcome::CheckFailed(CheckFailure::HashUnavailable)),
        },
        UpdatePhase::ReadingLocal { remote } => match event {
            UpdateEvent::LocalRead(local) => match check_for_updates(remote.as_str(), &local) {
                Ok(true) => (UpdatePhase::Terminating, UpdateAction::Terminate),
                Ok(false) => end_round(RoundOutcome::UpToDate),
                Err(failure) => end_round(RoundOutcome::CheckFailed(failure)),
            },
            _ => end_round(RoundOutcome::CheckFailed(CheckFailure::LocalUnreadable)),
        },
        UpdatePhase::Terminating => (UpdatePhase::Downloading, UpdateAction::Download),
        UpdatePhase::Downloading => match event {
            UpdateEvent::Downloaded(true) => (UpdatePhase::Removing, UpdateAction::RemoveOld),
            _ => end_round(RoundOutcome::UpdateFailed(UpdateStage::Download)),
        },
        UpdatePhase::Removing => match event {
            UpdateEvent::Removed(true) => (UpdatePhase::Renaming, UpdateAction::Rename),
            _ => end_round(RoundOutcome::UpdateFailed(UpdateStage::Remove)),
        },
        UpdatePhase::Renaming => match event {
            UpdateEvent::Renamed(true) => (UpdatePhase::Launching, UpdateAction::Launch),
            _ => end_round(RoundOutcome::UpdateFailed(UpdateStage::Rename)),
        },
        UpdatePhase::Launching => match event {
            UpdateEvent::Launched(true) => end_round(RoundOutcome::Updated),
            _ => end_round(RoundOutcome::UpdateFailed(UpdateStage::Launch)),
        },
    }
}

/// With no binary on disk an update is due, whatever the remote digest says,
/// as long as it says anything: the agent goes on to stop the running program.
pub proof fn lemma_absent_binary_forces_update(remote: Seq<char>)
    requires
        normal_digest(remote).len() > 0,
    ensures
        update_decision(remote, BinaryView::Absent) == Ok::<bool, CheckFailure>(true),
        update_transition(
            UpdatePhaseView::ReadingLocal { remote },
            UpdateEventView::LocalRead(BinaryView::Absent),
        ) == (UpdatePhaseView::Terminating, UpdateAction::Terminate),
{
}

/// Where the digest of the binary on disk is the remote digest, no update is
/// due, and the round ends without stopping, fetching or replacing anything.
pub proof fn lemma_equal_digests_end_the_round(remote: Seq<char>, bytes: Seq<u8>)
    requires
        is_hex_digest(sha256_hex_of(bytes)),
        normal_digest(remote) == lower(sha256_hex_of(bytes)),
    ensures
        update_decision(remote, BinaryView::Present(bytes)) == Ok::<bool, CheckFailure>(false),
        update_transition(
            UpdatePhaseView::ReadingLocal { remote },
            UpdateEventView::LocalRead(BinaryView::Present(bytes)),
        ) == round_ends(RoundOutcome::UpToDate),
{
}

/// The replacement keeps its order: the program is stopped only where an
/// update is due, the old binary is deleted only after the new one was
/// fetched, the new one is renamed only after the old one is gone, and it is
/// started only after it was renamed.
pub proof fn lemma_replacement_keeps_its_order(phase: UpdatePhaseView, event: UpdateEventView)
    ensures
        update_transition(phase, event).1 == UpdateAction::Terminate ==> {
            &&& phase is ReadingLocal
            &&& event is LocalRead
            &&& update_decision(phase->remote, event->LocalRead_0) == Ok::<bool, CheckFailure>(true)
        },
        update_transition(phase, event).1 == UpdateAction::Download ==> phase is Terminating,
        update_transition(phase, event).1 == UpdateAction::RemoveOld ==> phase is Downloading
            && event == UpdateEventView::Downloaded(true),
        update_transition(phase, event).1 == UpdateAction::Rename ==> phase is Removing && event
            == UpdateEventView::Removed(true),
        update_transition(phase, event).1 == UpdateAction::Launch ==> phase is Renaming && event
            == UpdateEventView::Renamed(true),
        update_transition(phase, event).1 == round_ends(RoundOutcome::Updated).1 ==> phase
            is Launching && event == UpdateEventView::Launched(true),
{
}

} // verus!
