//! The snapshot store: snapshots are named after their digest, a save that
//! finds its snapshot already on disk copies nothing, and a finished save
//! becomes a catalog record.
use vstd::prelude::*;
use crate::copy::CopyError;
use crate::paths::{join, join_path, push_char};
use crate::text::{
    blank, is_blank, format_rfc3339, rfc3339_of, FIRST_RFC3339_SECOND, LAST_RFC3339_SECOND,
};

verus! {

/// How many leading digest digits a snapshot's directory name carries.
pub const NAME_DIGITS: usize = 12;

/// The literal that starts every snapshot directory name.
pub open spec fn snapshot_prefix() -> Seq<char> {
    seq!['b', 'a', 'c', 'k', 'u', 'p', '_']
}

/// The directory name of the snapshot with this digest.
pub open spec fn snapshot_name_of(digest: Seq<char>) -> Seq<char> {
    snapshot_prefix() + digest.take(NAME_DIGITS as int)
}

/// Where the snapshot with this digest lives under the backup root.
pub open spec fn snapshot_dir(root: Seq<char>, digest: Seq<char>) -> Seq<char> {
    join_path(root, snapshot_name_of(digest))
}

/// The label given to a backup that was saved without one.
pub open spec fn default_label_prefix() -> Seq<char> {
    seq!['存', '档', '_']
}

/// A backup as the catalog keeps it.
pub struct Backup {
    pub id: i32,
    pub name: Option<String>,
    pub digest: String,
    pub size: u64,
    pub path: String,
    pub save_time: String,
    pub more_info: Option<String>,
}

/// The name of the snapshot directory for a digest: `backup_` and the
/// digest's first twelve characters. None when the digest is shorter.
pub fn snapshot_name(digest: &String) -> (r: Option<String>)
    ensures
        r is Some <==> digest@.len() >= NAME_DIGITS,
        r matches Some(n) ==> n@ == snapshot_name_of(digest@),
{
    let mut out = String::new();
    push_char(&mut out, 'b');
    push_char(&mut out, 'a');
    push_char(&mut out, 'c');
    push_char(&mut out, 'k');
    push_char(&mut out, 'u');
    push_char(&mut out, 'p');
    push_char(&mut out, '_');
    assert(out@ =~= snapshot_prefix());
    let mut taken: usize = 0;
    for c in it: digest.as_str().chars()
        invariant
            it.seq() == digest@,
            it.index() <= digest@.len(),
            taken as int == if it.index() < NAME_DIGITS {
                it.index() as int
            } else {
                NAME_DIGITS as int
            },
            out@ == snapshot_prefix() + digest@.subrange(0, taken as int),
    {
        if taken < NAME_DIGITS {
            push_char(&mut out, c);
            assert(digest@.subrange(0, taken + 1) =~= digest@.subrange(0, taken as int).push(c));
            taken = taken + 1;
        }
    }
    if taken == NAME_DIGITS {
        Some(out)
    } else {
        None
    }
}

/// The path of the snapshot for a digest under the backup root.
pub fn snapshot_path(backup_root: &String, digest: &String) -> (r: Option<String>)
    ensures
        r is Some <==> digest@.len() >= NAME_DIGITS,
        r matches Some(p) ==> p@ == snapshot_dir(backup_root@, digest@),
{
    match snapshot_name(digest) {
        Some(name) => Some(join(backup_root, &name)),
        None => None,
    }
}

/// The current time for a save, as RFC 3339 text. Empty only for an instant
/// outside the years 0 to 9999, which RFC 3339 cannot write.
pub fn save_time_text(unix_seconds: i64) -> (r: String)
    ensures
        FIRST_RFC3339_SECOND <= unix_seconds <= LAST_RFC3339_SECOND ==> r@ == rfc3339_of(
            unix_seconds as int,
        ),
        r@ == rfc3339_of(unix_seconds as int) || r@.len() == 0,
{
    match format_rfc3339(unix_seconds) {
        Some(s) => s,
        None => String::new(),
    }
}

/// The label of a new backup: the one asked for unless it is blank, else
/// a default made from the save time.
pub fn backup_label(requested: Option<String>, save_time: &String) -> (r: String)
    ensures
        match requested {
            Some(n) if !is_blank(n@) => r@ == n@,
            _ => r@ == default_label_prefix() + save_time@,
        },
{
    match requested {
        Some(n) => {
            if !blank(n.as_str()) {
                return n;
            }
        },
        None => {},
    }
    let mut out = String::new();
    push_char(&mut out, '存');
    push_char(&mut out, '档');
    push_char(&mut out, '_');
    assert(out@ =~= default_label_prefix());
    out.append(save_time.as_str());
    out
}

/// Where a save stands.
pub enum SaveStage {
    /// Waiting to learn whether the source exists.
    Start,
    /// Waiting for the source's fingerprint.
    Fingerprinting,
    /// Waiting to learn whether the snapshot for `digest` exists.
    Probing { digest: String },
    /// Waiting for the copy into the new snapshot.
    Copying { digest: String },
    /// Waiting for the snapshot's size; `reused` when nothing was copied.
    Measuring { digest: String, reused: bool },
    /// The save is over.
    Finished,
}

/// One save of `source` into `backup_root`.
pub struct SaveSession {
    pub source: String,
    pub backup_root: String,
    pub stage: SaveStage,
}

/// What the outside world reports back to a save.
pub enum SaveEvent {
    SourceChecked { exists: bool },
    Fingerprinted { digest: String },
    Probed { exists: bool },
    CopyFinished(Result<(), CopyError>),
    Measured { size: Option<u64> },
}

/// What a finished save hands to the catalog.
pub struct SaveOutcome {
    pub digest: String,
    pub snapshot_name: String,
    pub snapshot_path: String,
    pub size: u64,
    /// The snapshot was already on disk, and nothing was copied.
    pub reused: bool,
}

/// Why a save failed.
pub enum SaveError {
    /// The source does not exist.
    SourceNotFound { path: String },
    /// The fingerprint is too short to name a snapshot.
    MalformedDigest { digest: String },
    /// The copy into the snapshot failed.
    Copy(CopyError),
    /// The snapshot's size could not be measured.
    SizeUnavailable { path: String },
    /// The catalog already holds a backup with this digest.
    DuplicateDigest { existing_name: Option<String> },
}

/// What a save asks the outside world to do next.
pub enum SaveAction {
    CheckSource { path: String },
    Fingerprint { path: String },
    Probe { path: String },
    Copy { from: String, to: String },
    Measure { path: String },
    Done(SaveOutcome),
    Fail(SaveError),
}

/// A digest a save carries between stages is long enough to name its snapshot.
pub open spec fn save_wf(s: SaveSession) -> bool {
    match s.stage {
        SaveStage::Probing { digest } => digest@.len() >= NAME_DIGITS,
        SaveStage::Copying { digest } => digest@.len() >= NAME_DIGITS,
        SaveStage::Measuring { digest, .. } => digest@.len() >= NAME_DIGITS,
        _ => true,
    }
}

/// Whether `event` answers the action that `stage` is waiting on.
pub open spec fn save_expects(stage: SaveStage, event: SaveEvent) -> bool {
    match (stage, event) {
        (SaveStage::Start, SaveEvent::SourceChecked { .. }) => true,
        (SaveStage::Fingerprinting, SaveEvent::Fingerprinted { .. }) => true,
        (SaveStage::Probing { .. }, SaveEvent::Probed { .. }) => true,
        (SaveStage::Copying { .. }, SaveEvent::CopyFinished(_)) => true,
        (SaveStage::Measuring { .. }, SaveEvent::Measured { .. }) => true,
        _ => false,
    }
}

/// One step of a save: the session after `event`, and the next action.
pub open spec fn save_step_post(s: SaveSession, event: SaveEvent, r: (SaveSession, SaveAction)) -> bool {
    let (n, a) = r;
    let root = s.backup_root@;
    &&& n.source == s.source
    &&& n.backup_root == s.backup_root
    &&& match (s.stage, event) {
        (SaveStage::Start, SaveEvent::SourceChecked { exists }) => if exists {
            &&& n.stage is Fingerprinting
            &&& (a matches SaveAction::Fingerprint { path } && path@ == s.source@)
        } else {
            &&& n.stage is Finished
            &&& (a matches SaveAction::Fail(SaveError::SourceNotFound { path }) && path@
                == s.source@)
        },
        (SaveStage::Fingerprinting, SaveEvent::Fingerprinted { digest }) => if digest@.len()
            >= NAME_DIGITS {
            &&& (n.stage matches SaveStage::Probing { digest: d } && d@ == digest@)
            &&& (a matches SaveAction::Probe { path } && path@ == snapshot_dir(root, digest@))
        } else {
            &&& n.stage is Finished
            &&& (a matches SaveAction::Fail(SaveError::MalformedDigest { digest: d }) && d@
                == digest@)
        },
        (SaveStage::Probing { digest }, SaveEvent::Probed { exists }) => if exists {
            &&& (n.stage matches SaveStage::Measuring { digest: d, reused } && d@ == digest@
                && reused)
            &&& (a matches SaveAction::Measure { path } && path@ == snapshot_dir(root, digest@))
        } else {
            &&& (n.stage matches SaveStage::Copying { digest: d } && d@ == digest@)
            &&& (a matches SaveAction::Copy { from, to } && from@ == s.source@ && to@
                == snapshot_dir(root, digest@))
        },
        (SaveStage::Copying { digest }, SaveEvent::CopyFinished(result)) => match result {
            Ok(()) => {
                &&& (n.stage matches SaveStage::Measuring { digest: d, reused } && d@ == digest@
                    && !reused)
                &&& (a matches SaveAction::Measure { path } && path@ == snapshot_dir(
                    root,
                    digest@,
                ))
            },
            Err(e) => n.stage is Finished && a == SaveAction::Fail(SaveError::Copy(e)),
        },
        (SaveStage::Measuring { digest, reused }, SaveEvent::Measured { size }) => match size {
            Some(sz) => {
                &&& n.stage is Finished
                &&& (a matches SaveAction::Done(o) && o.digest@ == digest@ && o.snapshot_name@
                    == snapshot_name_of(digest@) && o.snapshot_path@ == snapshot_dir(root, digest@)
                    && o.size == sz && o.reused == reused)
            },
            None => {
                &&& n.stage is Finished
                &&& (a matches SaveAction::Fail(SaveError::SizeUnavailable { path }) && path@
                    == snapshot_dir(root, digest@))
            },
        },
        _ => false,
    }
}

impl SaveSession {
    /// Starts a save of `source` into `backup_root`: first the source is
    /// checked.
    pub fn begin(source: String, backup_root: String) -> (r: (SaveSession, SaveAction))
        ensures
            r.0.source == source,
            r.0.backup_root == backup_root,
            r.0.stage is Start,
            save_wf(r.0),
            r.1 matches SaveAction::CheckSource { path } && path@ == source@,
    {
        let path = source.clone();
        (SaveSession { source, backup_root, stage: SaveStage::Start }, SaveAction::CheckSource { path })
    }

    /// Whether `event` answers the action this save is waiting on.
    pub fn expects(&self, event: &SaveEvent) -> (r: bool)
        ensures
            r == save_expects(self.stage, *event),
    {
        match (&self.stage, event) {
            (SaveStage::Start, SaveEvent::SourceChecked { .. }) => true,
            (SaveStage::Fingerprinting, SaveEvent::Fingerprinted { .. }) => true,
            (SaveStage::Probing { .. }, SaveEvent::Probed { .. }) => true,
            (SaveStage::Copying { .. }, SaveEvent::CopyFinished(_)) => true,
            (SaveStage::Measuring { .. }, SaveEvent::Measured { .. }) => true,
            _ => false,
        }
    }

    /// Takes in what the last action gave and decides the next one. A
    /// missing source fails the save; a snapshot that already exists is
    /// reused without copying; a new one is copied from the source; either
    /// way the snapshot is measured and the save finishes with its digest,
    /// name, path and size.
    pub fn step(self, event: SaveEvent) -> (r: (SaveSession, SaveAction))
        requires
            save_wf(self),
            save_expects(self.stage, event),
        ensures
            save_wf(r.0),
            save_step_post(self, event, r),
    {
        let SaveSession { source, backup_root, stage } = self;
        match (stage, event) {
            (SaveStage::Start, SaveEvent::SourceChecked { exists }) => {
                let path = source.clone();
                if exists {
                    (
                        SaveSession { source, backup_root, stage: SaveStage::Fingerprinting },
                        SaveAction::Fingerprint { path },
                    )
                } else {
                    (
                        SaveSession { source, backup_root, stage: SaveStage::Finished },
                        SaveAction::Fail(SaveError::SourceNotFound { path }),
                    )
                }
            },
            (SaveStage::Fingerprinting, SaveEvent::Fingerprinted { digest }) => {
                match snapshot_path(&backup_root, &digest) {
                    Some(path) => (
                        SaveSession { source, backup_root, stage: SaveStage::Probing { digest } },
                        SaveAction::Probe { path },
                    ),
                    None => (
                        SaveSession { source, backup_root, stage: SaveStage::Finished },
                        SaveAction::Fail(SaveError::MalformedDigest { digest }),
                    ),
                }
            },
            (SaveStage::Probing { digest }, SaveEvent::Probed { exists }) => {
                let path = match snapshot_path(&backup_root, &digest) {
                    Some(p) => p,
                    None => String::new(),
                };
                if exists {
                    (
                        SaveSession {
                            source,
                            backup_root,
                            stage: SaveStage::Measuring { digest, reused: true },
                        },
                        SaveAction::Measure { path },
                    )
                } else {
                    let from = source.clone();
                    (
                        SaveSession { source, backup_root, stage: SaveStage::Copying { digest } },
                        SaveAction::Copy { from, to: path },
                    )
                }
            },
            (SaveStage::Copying { digest }, SaveEvent::CopyFinished(result)) => {
                match result {
                    Ok(()) => {
                        let path = match snapshot_path(&backup_root, &digest) {
                            Some(p) => p,
                            None => String::new(),
                        };
                        (
                            SaveSession {
                                source,
                                backup_root,
                                stage: SaveStage::Measuring { digest, reused: false },
                            },
                            SaveAction::Measure { path },
                        )
                    },
                    Err(e) => (
                        SaveSession { source, backup_root, stage: SaveStage::Finished },
                        SaveAction::Fail(SaveError::Copy(e)),
                    ),
                }
            },
            (SaveStage::Measuring { digest, reused }, SaveEvent::Measured { size }) => {
                let path = match snapshot_path(&backup_root, &digest) {
                    Some(p) => p,
                    None => String::new(),
                };
                match size {
                    Some(sz) => {
                        let name = match snapshot_name(&digest) {
                            Some(n) => n,
                            None => String::new(),
                        };
                        (
                            SaveSession { source, backup_root, stage: SaveStage::Finished },
                            SaveAction::Done(
                                SaveOutcome {
                                    digest,
                                    snapshot_name: name,
                                    snapshot_path: path,
                                    size: sz,
                                    reused,
                                },
                            ),
                        )
                    },
                    None => (
                        SaveSession { source, backup_root, stage: SaveStage::Finished },
                        SaveAction::Fail(SaveError::SizeUnavailable { path }),
                    ),
                }
            },
            // never reached: `save_expects` pairs every stage with its event
            (stage, _) => (
                SaveSession { source, backup_root, stage },
                SaveAction::Fail(SaveError::SizeUnavailable { path: String::new() }),
            ),
        }
    }
}

/// The snapshot directories on disk after `action` ran: a copy creates its
/// destination, and nothing else creates one.
pub open spec fn dirs_after(action: SaveAction, dirs: Set<Seq<char>>) -> Set<Seq<char>> {
    match action {
        SaveAction::Copy { to, .. } => dirs.insert(to@),
        _ => dirs,
    }
}

/// Saving a source twice, unchanged in between, makes one snapshot and copies
/// once at most. Both saves reach the probe with the same digest. The first
/// probes the directories as they are; the second probes them as the first
/// left them. The second then copies nothing, and the only directory the
/// two saves can have added is the one that the digest names.
pub proof fn lemma_second_save_copies_nothing(
    first: SaveSession,
    first_step: (SaveSession, SaveAction),
    second: SaveSession,
    second_step: (SaveSession, SaveAction),
    dirs: Set<Seq<char>>,
)
    requires
        first.stage matches SaveStage::Probing { digest: d1 } && second.stage matches SaveStage::Probing { digest: d2 } && d1@ == d2@,
        first.backup_root@ == second.backup_root@,
        first.stage matches SaveStage::Probing { digest: d1 } && save_step_post(
            first,
            SaveEvent::Probed { exists: dirs.contains(snapshot_dir(first.backup_root@, d1@)) },
            first_step,
        ),
        second.stage matches SaveStage::Probing { digest: d2 } && save_step_post(
            second,
            SaveEvent::Probed {
                exists: dirs_after(first_step.1, dirs).contains(
                    snapshot_dir(second.backup_root@, d2@),
                ),
            },
            second_step,
        ),
    ensures
        !(second_step.1 is Copy),
        first.stage matches SaveStage::Probing { digest: d } && dirs_after(
            second_step.1,
            dirs_after(first_step.1, dirs),
        ) == dirs.insert(snapshot_dir(first.backup_root@, d@)),
{
    if let SaveStage::Probing { digest: d } = first.stage {
        let p = snapshot_dir(first.backup_root@, d@);
        if dirs.contains(p) {
            assert(dirs.insert(p) =~= dirs);
        }
    }
}

/// The catalog keeps one record per digest: an existing record for the
/// digest rejects the new one, and names the backup it belongs to.
pub fn check_not_cataloged(existing: Option<Backup>) -> (r: Result<(), SaveError>)
    ensures
        match existing {
            None => r is Ok,
            Some(b) => r == Err::<(), SaveError>(SaveError::DuplicateDigest { existing_name: b.name }),
        },
{
    match existing {
        None => Ok(()),
        Some(b) => Err(SaveError::DuplicateDigest { existing_name: b.name }),
    }
}

/// The catalog record of a finished save. The catalog assigns the id.
pub fn make_record(outcome: SaveOutcome, label: String, save_time: String) -> (r: Backup)
    ensures
        r.id == 0,
        r.name == Some(label),
        r.digest == outcome.digest,
        r.size == outcome.size,
        r.path == outcome.snapshot_path,
        r.save_time == save_time,
        r.more_info is None,
{
    Backup {
        id: 0,
        name: Some(label),
        digest: outcome.digest,
        size: outcome.size,
        path: outcome.snapshot_path,
        save_time,
        more_info: None,
    }
}

} // verus!
