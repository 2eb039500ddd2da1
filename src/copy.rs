//! The copy engine's decisions: which directories and files a tree copy
//! creates, which failures end it, how per-file failures are reported, and
//! the order in which the copy strategies are tried.
use vstd::prelude::*;
use crate::paths::{join, join_path};

verus! {

/// How many failed paths a partial-failure report carries as examples.
pub const SAMPLE_LIMIT: usize = 10;

/// An entry found while scanning the source of a copy: its path relative to
/// the source root, and whether it is a directory.
pub struct ScannedItem {
    pub relative_path: String,
    pub is_dir: bool,
}

/// One file to copy.
pub struct FileCopy {
    pub source: String,
    pub destination: String,
}

impl View for FileCopy {
    type V = (Seq<char>, Seq<char>);

    open spec fn view(&self) -> (Seq<char>, Seq<char>) {
        (self.source@, self.destination@)
    }
}

/// Everything a fallback copy does, in order: directories first (created one
/// after another), then files (copied in any order).
pub struct CopyPlan {
    pub directories: Vec<String>,
    pub files: Vec<FileCopy>,
}

/// A file that could not be copied, with the reason.
pub struct CopyFailure {
    pub path: String,
    pub message: String,
}

impl View for CopyFailure {
    type V = (Seq<char>, Seq<char>);

    open spec fn view(&self) -> (Seq<char>, Seq<char>) {
        (self.path@, self.message@)
    }
}

/// What became of one file of a copy.
pub enum FileCopyStatus {
    Copied,
    Failed(CopyFailure),
}

/// What became of one directory of a copy.
pub enum DirCreation {
    Created,
    AlreadyExisted,
    Failed { message: String },
}

/// Why a copy did not finish.
pub enum CopyError {
    /// A directory of the destination could not be created.
    CreateDir { path: String, message: String },
    /// The source could not be scanned.
    Scan { message: String },
    /// Some files could not be copied; the others were.
    PartialFailure { failed: usize, copied: usize, samples: Vec<CopyFailure> },
}

/// The destination directories of a copy, in scan order. The root itself
/// (an empty relative path) is left out.
pub open spec fn planned_dirs(dst: Seq<char>, items: Seq<ScannedItem>) -> Seq<Seq<char>>
    decreases items.len(),
{
    if items.len() == 0 {
        Seq::empty()
    } else {
        let rest = planned_dirs(dst, items.drop_last());
        let it = items.last();
        if it.is_dir && it.relative_path@.len() > 0 {
            rest.push(join_path(dst, it.relative_path@))
        } else {
            rest
        }
    }
}

/// The file copies of a copy, in scan order, each from under `src` to the
/// same relative path under `dst`.
pub open spec fn planned_files(src: Seq<char>, dst: Seq<char>, items: Seq<ScannedItem>) -> Seq<
    (Seq<char>, Seq<char>),
>
    decreases items.len(),
{
    if items.len() == 0 {
        Seq::empty()
    } else {
        let rest = planned_files(src, dst, items.drop_last());
        let it = items.last();
        if !it.is_dir && it.relative_path@.len() > 0 {
            rest.push((join_path(src, it.relative_path@), join_path(dst, it.relative_path@)))
        } else {
            rest
        }
    }
}

/// The failures among the results of a copy, in order.
pub open spec fn failures_of(results: Seq<FileCopyStatus>) -> Seq<(Seq<char>, Seq<char>)>
    decreases results.len(),
{
    if results.len() == 0 {
        Seq::empty()
    } else {
        let rest = failures_of(results.drop_last());
        match results.last() {
            FileCopyStatus::Copied => rest,
            FileCopyStatus::Failed(f) => rest.push(f@),
        }
    }
}

/// The first `SAMPLE_LIMIT` failures, or all of them when there are fewer.
pub open spec fn samples_of(s: Seq<(Seq<char>, Seq<char>)>) -> Seq<(Seq<char>, Seq<char>)> {
    if s.len() <= SAMPLE_LIMIT {
        s
    } else {
        s.take(SAMPLE_LIMIT as int)
    }
}

/// The views of a sequence of failures.
pub open spec fn failure_views(s: Seq<CopyFailure>) -> Seq<(Seq<char>, Seq<char>)> {
    s.map_values(|f: CopyFailure| f@)
}

/// The first directory whose creation failed, if any.
pub open spec fn first_dir_failure(results: Seq<DirCreation>) -> Option<int>
    decreases results.len(),
{
    if results.len() == 0 {
        None
    } else {
        match first_dir_failure(results.drop_last()) {
            Some(i) => Some(i),
            None => match results.last() {
                DirCreation::Failed { .. } => Some(results.len() - 1),
                _ => None,
            },
        }
    }
}

/// Plans a copy of the scanned tree from `src_root` to `dst_root`: the
/// directories to create and the files to copy, each under the same relative
/// path it has in the source.
pub fn plan_copy(src_root: &String, dst_root: &String, items: &Vec<ScannedItem>) -> (r: CopyPlan)
    ensures
        r.directories@.map_values(|d: String| d@) == planned_dirs(dst_root@, items@),
        r.files@.map_values(|f: FileCopy| f@) == planned_files(src_root@, dst_root@, items@),
{
    let mut directories: Vec<String> = Vec::new();
    let mut files: Vec<FileCopy> = Vec::new();
    let mut i: usize = 0;
    while i < items.len()
        invariant
            i <= items@.len(),
            directories@.map_values(|d: String| d@) == planned_dirs(
                dst_root@,
                items@.subrange(0, i as int),
            ),
            files@.map_values(|f: FileCopy| f@) == planned_files(
                src_root@,
                dst_root@,
                items@.subrange(0, i as int),
            ),
        decreases items@.len() - i,
    {
        let item = &items[i];
        let ghost pre = items@.subrange(0, i as int);
        let ghost post = items@.subrange(0, i + 1);
        assert(post.drop_last() =~= pre);
        assert(post.last() == *item);
        let ghost dirs_before = directories@;
        let ghost files_before = files@;
        if !item.relative_path.as_str().is_empty() {
            if item.is_dir {
                let d = join(dst_root, &item.relative_path);
                directories.push(d);
                assert(directories@.map_values(|d: String| d@) =~= dirs_before.map_values(
                    |d: String| d@,
                ).push(join_path(dst_root@, item.relative_path@)));
            } else {
                let s = join(src_root, &item.relative_path);
                let d = join(dst_root, &item.relative_path);
                files.push(FileCopy { source: s, destination: d });
                assert(files@.map_values(|f: FileCopy| f@) =~= files_before.map_values(
                    |f: FileCopy| f@,
                ).push((join_path(src_root@, item.relative_path@), join_path(dst_root@, item.relative_path@))));
            }
        }
        i = i + 1;
    }
    assert(items@.subrange(0, i as int) =~= items@);
    CopyPlan { directories, files }
}

/// Decides the structure phase from what creating each planned directory
/// gave: a directory that already existed is no error, any other failure
/// ends the copy, and the first one is reported.
pub fn check_structure(directories: &Vec<String>, results: &Vec<DirCreation>) -> (r: Result<
    (),
    CopyError,
>)
    requires
        directories@.len() == results@.len(),
    ensures
        match first_dir_failure(results@) {
            None => r is Ok,
            Some(i) => match (r, results@[i]) {
                (Err(CopyError::CreateDir { path, message }), DirCreation::Failed { message: m }) => {
                    &&& path@ == directories@[i]@
                    &&& message@ == m@
                },
                _ => false,
            },
        },
{
    let mut i: usize = 0;
    while i < results.len()
        invariant
            i <= results@.len(),
            directories@.len() == results@.len(),
            first_dir_failure(results@.subrange(0, i as int)) is None,
        decreases results@.len() - i,
    {
        let ghost post = results@.subrange(0, i + 1);
        assert(post.drop_last() =~= results@.subrange(0, i as int));
        match &results[i] {
            DirCreation::Failed { message } => {
                proof {
                    lemma_first_dir_failure_extends(results@, i as int);
                }
                return Err(
                    CopyError::CreateDir { path: directories[i].clone(), message: message.clone() },
                );
            },
            _ => {},
        }
        i = i + 1;
    }
    assert(results@.subrange(0, i as int) =~= results@);
    Ok(())
}

/// A failure at `i` with none before it is the first failure of the whole
/// sequence.
proof fn lemma_first_dir_failure_extends(results: Seq<DirCreation>, i: int)
    requires
        0 <= i < results.len(),
        first_dir_failure(results.subrange(0, i)) is None,
        results[i] is Failed,
    ensures
        first_dir_failure(results) == Some(i),
    decreases results.len(),
{
    if i == results.len() - 1 {
        assert(results.drop_last() =~= results.subrange(0, i));
    } else {
        assert(results.drop_last().subrange(0, i) =~= results.subrange(0, i));
        lemma_first_dir_failure_extends(results.drop_last(), i);
    }
}

/// Aggregates the results of the parallel copy phase: every failure is
/// counted, the first `SAMPLE_LIMIT` of them are kept as examples, and any
/// failure makes the whole copy fail, though the files that were copied stay.
/// On success the number of files copied is returned.
pub fn summarize_copy(results: &Vec<FileCopyStatus>) -> (r: Result<usize, CopyError>)
    ensures
        failures_of(results@).len() == 0 ==> r == Ok::<usize, CopyError>(results@.len() as usize),
        failures_of(results@).len() > 0 ==> match r {
            Err(CopyError::PartialFailure { failed, copied, samples }) => {
                &&& failed == failures_of(results@).len()
                &&& copied == results@.len() - failed
                &&& failure_views(samples@) == samples_of(failures_of(results@))
            },
            _ => false,
        },
{
    let mut failed: usize = 0;
    let mut samples: Vec<CopyFailure> = Vec::new();
    let mut i: usize = 0;
    while i < results.len()
        invariant
            i <= results@.len(),
            failed == failures_of(results@.subrange(0, i as int)).len(),
            failed <= i,
            failure_views(samples@) == samples_of(failures_of(results@.subrange(0, i as int))),
        decreases results@.len() - i,
    {
        let ghost pre = results@.subrange(0, i as int);
        let ghost post = results@.subrange(0, i + 1);
        assert(post.drop_last() =~= pre);
        let ghost samples_before = samples@;
        assert(failure_views(samples@).len() == samples@.len());
        match &results[i] {
            FileCopyStatus::Copied => {},
            FileCopyStatus::Failed(f) => {
                if samples.len() < SAMPLE_LIMIT {
                    samples.push(CopyFailure { path: f.path.clone(), message: f.message.clone() });
                    assert(failure_views(samples@) =~= failure_views(samples_before).push(f@));
                }
                failed = failed + 1;
            },
        }
        assert(failure_views(samples@) =~= samples_of(failures_of(post)));
        i = i + 1;
    }
    assert(results@.subrange(0, i as int) =~= results@);
    if failed == 0 {
        Ok(results.len())
    } else {
        Err(CopyError::PartialFailure { failed, copied: results.len() - failed, samples })
    }
}

/// The ways of copying a tree, in the order they are tried: a system mirror
/// tool, a second system tool, then the manual copy.
pub enum CopyStage {
    Mirror,
    SystemCopy,
    Manual,
}

/// What the copy engine was told about the stage it ran.
pub enum CopyEvent {
    /// The stage's tool is not available on this platform.
    Unavailable,
    /// The stage's tool ran and exited with this code (none if it was killed).
    Exited(Option<i32>),
    /// The manual copy finished.
    ManualDone(Result<(), CopyError>),
}

/// What the copy engine does next.
pub enum CopyStep {
    Run(CopyStage),
    Finish(Result<(), CopyError>),
}

/// The mirror tool reports success, possibly with warnings, by an exit code
/// from 0 to 7.
pub open spec fn mirror_accepts(code: Option<i32>) -> bool {
    match code {
        Some(c) => 0 <= c <= 7,
        None => false,
    }
}

/// Whether the mirror tool's exit code means the tree was copied.
pub fn mirror_exit_accepted(code: Option<i32>) -> (r: bool)
    ensures
        r == mirror_accepts(code),
{
    match code {
        Some(c) => 0 <= c && c <= 7,
        None => false,
    }
}

/// The next step of a copy after `stage` ran and reported `event`. A system
/// tool that succeeds ends the copy; one that is missing or fails hands over
/// to the next stage; the manual copy's own result is final.
pub fn next_copy_step(stage: CopyStage, event: CopyEvent) -> (r: CopyStep)
    ensures
        match (stage, event) {
            (CopyStage::Mirror, CopyEvent::Exited(code)) => if mirror_accepts(code) {
                r == CopyStep::Finish(Ok(()))
            } else {
                r == CopyStep::Run(CopyStage::SystemCopy)
            },
            (CopyStage::Mirror, _) => r == CopyStep::Run(CopyStage::SystemCopy),
            (CopyStage::SystemCopy, CopyEvent::Exited(Some(0))) => r == CopyStep::Finish(Ok(())),
            (CopyStage::SystemCopy, _) => r == CopyStep::Run(CopyStage::Manual),
            (CopyStage::Manual, CopyEvent::ManualDone(result)) => r == CopyStep::Finish(result),
            (CopyStage::Manual, _) => r == CopyStep::Run(CopyStage::Manual),
        },
{
    match stage {
        CopyStage::Mirror => match event {
            CopyEvent::Exited(code) => {
                if mirror_exit_accepted(code) {
                    CopyStep::Finish(Ok(()))
                } else {
                    CopyStep::Run(CopyStage::SystemCopy)
                }
            },
            _ => CopyStep::Run(CopyStage::SystemCopy),
        },
        CopyStage::SystemCopy => match event {
            CopyEvent::Exited(Some(0)) => CopyStep::Finish(Ok(())),
            _ => CopyStep::Run(CopyStage::Manual),
        },
        CopyStage::Manual => match event {
            CopyEvent::ManualDone(result) => CopyStep::Finish(result),
            _ => CopyStep::Run(CopyStage::Manual),
        },
    }
}

} // verus!
