//! The restore engine: a recorded snapshot is found, its fingerprint checked
//! against the record, and only then does it replace the live directory.
use vstd::prelude::*;
use crate::copy::CopyError;
use crate::snapshot::{
    Backup, NAME_DIGITS, SaveAction, SaveEvent, SaveSession, save_step_post, save_wf,
    snapshot_dir, snapshot_path,
};

verus! {

/// Where a restore stands.
pub enum RestoreStage {
    /// Waiting to learn whether the snapshot is on disk.
    Locating,
    /// Waiting for the snapshot's fingerprint.
    Verifying,
    /// Waiting for the old target to be removed.
    Clearing,
    /// Waiting for the target's parent directory to be made.
    Preparing,
    /// Waiting for the copy from the snapshot to the target.
    Copying,
    /// The restore is over.
    Finished,
}

/// One restore of the backup `name` (with digest `digest`) into `target`.
pub struct RestoreSession {
    pub name: Option<String>,
    pub digest: String,
    pub snapshot: String,
    pub target: String,
    pub stage: RestoreStage,
}

/// What the outside world reports back to a restore.
pub enum RestoreEvent {
    SnapshotProbed { exists: bool },
    Fingerprinted { digest: String },
    TargetCleared(Result<(), String>),
    ParentReady(Result<(), String>),
    CopyFinished(Result<(), CopyError>),
}

/// Why a restore failed.
pub enum RestoreError {
    /// The catalog holds no backup with this id.
    RecordNotFound { id: i32 },
    /// The backup's snapshot is not on disk.
    SnapshotNotFound { path: String },
    /// The snapshot's fingerprint differs from the one recorded.
    Corrupted { expected: String, found: String },
    /// The old target could not be removed.
    ClearFailed { path: String, message: String },
    /// The target's parent directory could not be made.
    ParentFailed { path: String, message: String },
    /// The copy from the snapshot failed; the target may be partly written.
    Copy(CopyError),
}

/// What a finished restore reports: which backup went where.
pub struct RestoreSummary {
    pub name: Option<String>,
    pub target: String,
}

/// What a restore asks the outside world to do next.
pub enum RestoreAction {
    ProbeSnapshot { path: String },
    Fingerprint { path: String },
    /// Remove the target, if it exists.
    ClearTarget { path: String },
    /// Make the target's parent directory, if it is missing.
    EnsureParent { path: String },
    Copy { from: String, to: String },
    Done(RestoreSummary),
    Fail(RestoreError),
}

/// The event reports a fingerprint equal to `digest`.
pub open spec fn fingerprint_matches(event: RestoreEvent, digest: Seq<char>) -> bool {
    match event {
        RestoreEvent::Fingerprinted { digest: d } => d@ == digest,
        _ => false,
    }
}

/// The event reports a fingerprint other than `digest`.
pub open spec fn fingerprint_differs(event: RestoreEvent, digest: Seq<char>) -> bool {
    match event {
        RestoreEvent::Fingerprinted { digest: d } => d@ != digest,
        _ => false,
    }
}

/// Whether an action changes the target directory.
pub open spec fn modifies_target(a: RestoreAction) -> bool {
    a is ClearTarget || a is EnsureParent || a is Copy
}

/// Whether `event` answers the action that `stage` is waiting on.
pub open spec fn restore_expects(stage: RestoreStage, event: RestoreEvent) -> bool {
    match (stage, event) {
        (RestoreStage::Locating, RestoreEvent::SnapshotProbed { .. }) => true,
        (RestoreStage::Verifying, RestoreEvent::Fingerprinted { .. }) => true,
        (RestoreStage::Clearing, RestoreEvent::TargetCleared(_)) => true,
        (RestoreStage::Preparing, RestoreEvent::ParentReady(_)) => true,
        (RestoreStage::Copying, RestoreEvent::CopyFinished(_)) => true,
        _ => false,
    }
}

/// One step of a restore: the session after `event`, and the next action.
pub open spec fn restore_step_post(
    s: RestoreSession,
    event: RestoreEvent,
    r: (RestoreSession, RestoreAction),
) -> bool {
    let (n, a) = r;
    &&& n.name == s.name
    &&& n.digest == s.digest
    &&& n.snapshot == s.snapshot
    &&& n.target == s.target
    &&& match (s.stage, event) {
        (RestoreStage::Locating, RestoreEvent::SnapshotProbed { exists }) => if exists {
            &&& n.stage is Verifying
            &&& (a matches RestoreAction::Fingerprint { path } && path@ == s.snapshot@)
        } else {
            &&& n.stage is Finished
            &&& (a matches RestoreAction::Fail(RestoreError::SnapshotNotFound { path }) && path@
                == s.snapshot@)
        },
        (RestoreStage::Verifying, RestoreEvent::Fingerprinted { digest }) => if digest@
            == s.digest@ {
            &&& n.stage is Clearing
            &&& (a matches RestoreAction::ClearTarget { path } && path@ == s.target@)
        } else {
            &&& n.stage is Finished
            &&& (a matches RestoreAction::Fail(RestoreError::Corrupted { expected, found })
                && expected@ == s.digest@ && found@ == digest@)
        },
        (RestoreStage::Clearing, RestoreEvent::TargetCleared(result)) => match result {
            Ok(()) => {
                &&& n.stage is Preparing
                &&& (a matches RestoreAction::EnsureParent { path } && path@ == s.target@)
            },
            Err(m) => {
                &&& n.stage is Finished
                &&& (a matches RestoreAction::Fail(RestoreError::ClearFailed { path, message })
                    && path@ == s.target@ && message == m)
            },
        },
        (RestoreStage::Preparing, RestoreEvent::ParentReady(result)) => match result {
            Ok(()) => {
                &&& n.stage is Copying
                &&& (a matches RestoreAction::Copy { from, to } && from@ == s.snapshot@ && to@
                    == s.target@)
            },
            Err(m) => {
                &&& n.stage is Finished
                &&& (a matches RestoreAction::Fail(RestoreError::ParentFailed { path, message })
                    && path@ == s.target@ && message == m)
            },
        },
        (RestoreStage::Copying, RestoreEvent::CopyFinished(result)) => match result {
            Ok(()) => {
                &&& n.stage is Finished
                &&& (a matches RestoreAction::Done(sum) && sum.name == s.name && sum.target@
                    == s.target@)
            },
            Err(e) => n.stage is Finished && a == RestoreAction::Fail(RestoreError::Copy(e)),
        },
        _ => false,
    }
}

/// How a restore starts: a missing record fails at once; otherwise the
/// snapshot that the record's digest names under `root` is looked for, and
/// a digest too short to name one has no snapshot.
pub open spec fn restore_begin_post(
    record: Option<Backup>,
    id: i32,
    root: Seq<char>,
    target: String,
    r: (RestoreSession, RestoreAction),
) -> bool {
    &&& !modifies_target(r.1)
    &&& r.0.target == target
    &&& match record {
        None => r.0.stage is Finished && r.1 == RestoreAction::Fail(
            RestoreError::RecordNotFound { id },
        ),
        Some(b) => {
            &&& r.0.name == b.name
            &&& r.0.digest == b.digest
            &&& if b.digest@.len() >= NAME_DIGITS {
                &&& r.0.snapshot@ == snapshot_dir(root, b.digest@)
                &&& r.0.stage is Locating
                &&& (r.1 matches RestoreAction::ProbeSnapshot { path } && path@ == r.0.snapshot@)
            } else {
                &&& r.0.stage is Finished
                &&& (r.1 matches RestoreAction::Fail(RestoreError::SnapshotNotFound { path })
                    && path@ == r.0.snapshot@)
            }
        },
    }
}

impl RestoreSession {
    /// Starts restoring the backup that the catalog returned for `id` into
    /// `target`. A missing record fails at once; otherwise the snapshot that
    /// the record's digest names under `backup_root` is looked for. A digest
    /// too short to name one has no snapshot.
    pub fn begin(record: Option<Backup>, id: i32, backup_root: &String, target: String) -> (r: (
        RestoreSession,
        RestoreAction,
    ))
        ensures
            restore_begin_post(record, id, backup_root@, target, r),
    {
        match record {
            None => (
                RestoreSession {
                    name: None,
                    digest: String::new(),
                    snapshot: String::new(),
                    target,
                    stage: RestoreStage::Finished,
                },
                RestoreAction::Fail(RestoreError::RecordNotFound { id }),
            ),
            Some(b) => {
                let Backup { name, digest, .. } = b;
                match snapshot_path(backup_root, &digest) {
                    Some(snapshot) => {
                        let path = snapshot.clone();
                        (
                            RestoreSession {
                                name,
                                digest,
                                snapshot,
                                target,
                                stage: RestoreStage::Locating,
                            },
                            RestoreAction::ProbeSnapshot { path },
                        )
                    },
                    None => {
                        let snapshot = String::new();
                        let path = String::new();
                        (
                            RestoreSession {
                                name,
                                digest,
                                snapshot,
                                target,
                                stage: RestoreStage::Finished,
                            },
                            RestoreAction::Fail(RestoreError::SnapshotNotFound { path }),
                        )
                    },
                }
            },
        }
    }

    /// Whether `event` answers the action this restore is waiting on.
    pub fn expects(&self, event: &RestoreEvent) -> (r: bool)
        ensures
            r == restore_expects(self.stage, *event),
    {
        match (&self.stage, event) {
            (RestoreStage::Locating, RestoreEvent::SnapshotProbed { .. }) => true,
            (RestoreStage::Verifying, RestoreEvent::Fingerprinted { .. }) => true,
            (RestoreStage::Clearing, RestoreEvent::TargetCleared(_)) => true,
            (RestoreStage::Preparing, RestoreEvent::ParentReady(_)) => true,
            (RestoreStage::Copying, RestoreEvent::CopyFinished(_)) => true,
            _ => false,
        }
    }

    /// Takes in what the last action gave and decides the next one: a
    /// missing snapshot or a fingerprint that differs from the record ends
    /// the restore before the target is touched; after that the target is
    /// removed, its parent made, and the snapshot copied in. Any failure ends
    /// the restore; nothing is retried.
    pub fn step(self, event: RestoreEvent) -> (r: (RestoreSession, RestoreAction))
        requires
            restore_expects(self.stage, event),
        ensures
            restore_step_post(self, event, r),
    {
        let RestoreSession { name, digest, snapshot, target, stage } = self;
        match (stage, event) {
            (RestoreStage::Locating, RestoreEvent::SnapshotProbed { exists }) => {
                let path = snapshot.clone();
                if exists {
                    (
                        RestoreSession { name, digest, snapshot, target, stage: RestoreStage::Verifying },
                        RestoreAction::Fingerprint { path },
                    )
                } else {
                    (
                        RestoreSession { name, digest, snapshot, target, stage: RestoreStage::Finished },
                        RestoreAction::Fail(RestoreError::SnapshotNotFound { path }),
                    )
                }
            },
            (RestoreStage::Verifying, RestoreEvent::Fingerprinted { digest: found }) => {
                if found == digest {
                    let path = target.clone();
                    (
                        RestoreSession { name, digest, snapshot, target, stage: RestoreStage::Clearing },
                        RestoreAction::ClearTarget { path },
                    )
                } else {
                    let expected = digest.clone();
                    (
                        RestoreSession { name, digest, snapshot, target, stage: RestoreStage::Finished },
                        RestoreAction::Fail(RestoreError::Corrupted { expected, found }),
                    )
                }
            },
            (RestoreStage::Clearing, RestoreEvent::TargetCleared(result)) => {
                let path = target.clone();
                match result {
                    Ok(()) => (
                        RestoreSession { name, digest, snapshot, target, stage: RestoreStage::Preparing },
                        RestoreAction::EnsureParent { path },
                    ),
                    Err(message) => (
                        RestoreSession { name, digest, snapshot, target, stage: RestoreStage::Finished },
                        RestoreAction::Fail(RestoreError::ClearFailed { path, message }),
                    ),
                }
            },
            (RestoreStage::Preparing, RestoreEvent::ParentReady(result)) => {
                let path = target.clone();
                match result {
                    Ok(()) => {
                        let from = snapshot.clone();
                        (
                            RestoreSession { name, digest, snapshot, target, stage: RestoreStage::Copying },
                            RestoreAction::Copy { from, to: path },
                        )
                    },
                    Err(message) => (
                        RestoreSession { name, digest, snapshot, target, stage: RestoreStage::Finished },
                        RestoreAction::Fail(RestoreError::ParentFailed { path, message }),
                    ),
                }
            },
            (RestoreStage::Copying, RestoreEvent::CopyFinished(result)) => {
                match result {
                    Ok(()) => {
                        let summary = RestoreSummary { name: name.clone(), target: target.clone() };
                        (
                            RestoreSession { name, digest, snapshot, target, stage: RestoreStage::Finished },
                            RestoreAction::Done(summary),
                        )
                    },
                    Err(e) => (
                        RestoreSession { name, digest, snapshot, target, stage: RestoreStage::Finished },
                        RestoreAction::Fail(RestoreError::Copy(e)),
                    ),
                }
            },
            // never reached: `restore_expects` pairs every stage with its event
            (stage, _) => (
                RestoreSession { name, digest, snapshot, target, stage },
                RestoreAction::Fail(RestoreError::RecordNotFound { id: 0 }),
            ),
        }
    }
}

/// A snapshot is checked before the target is touched. Locating and
/// verifying it ask for no change to the target; a fingerprint that differs
/// from the record ends the restore with `Corrupted`; and the target is
/// cleared only right after a fingerprint that matches.
pub proof fn lemma_target_untouched_until_verified(
    s: RestoreSession,
    event: RestoreEvent,
    r: (RestoreSession, RestoreAction),
)
    requires
        restore_step_post(s, event, r),
    ensures
        s.stage is Locating ==> !modifies_target(r.1),
        (s.stage is Verifying && fingerprint_differs(event, s.digest@)) ==> (r.0.stage is Finished
            && (r.1 matches RestoreAction::Fail(RestoreError::Corrupted { .. }))),
        r.0.stage is Clearing ==> (s.stage is Verifying && fingerprint_matches(event, s.digest@)),
        r.1 is ClearTarget ==> (s.stage is Verifying && fingerprint_matches(event, s.digest@)),
{
}

/// A restore reads what the save wrote. Take a save that finished with an
/// outcome, and a record that keeps the outcome's digest. A restore of that
/// record from the same backup root looks in the directory the save wrote,
/// and it checks that directory against the digest the source had when it
/// was saved. Every later step keeps that directory and digest, so the copy
/// back reads from there, and it starts only after the check passed
/// (`lemma_target_untouched_until_verified`).
pub proof fn lemma_restore_reads_saved_snapshot(
    measuring: SaveSession,
    size: Option<u64>,
    finished: (SaveSession, SaveAction),
    record: Backup,
    id: i32,
    target: String,
    begun: (RestoreSession, RestoreAction),
)
    requires
        save_wf(measuring),
        measuring.stage is Measuring,
        save_step_post(measuring, SaveEvent::Measured { size }, finished),
        finished.1 matches SaveAction::Done(o) && record.digest == o.digest,
        restore_begin_post(Some(record), id, measuring.backup_root@, target, begun),
    ensures
        finished.1 matches SaveAction::Done(o) && begun.0.snapshot@ == o.snapshot_path@
            && begun.0.digest@ == o.digest@,
        begun.1 matches RestoreAction::ProbeSnapshot { path } && finished.1 matches SaveAction::Done(o)
            && path@ == o.snapshot_path@,
{
}

} // verus!
