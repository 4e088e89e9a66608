//! The cleaner: which steps run on a file and in what order, how their
//! outcomes become the file's result, which paths a traversal selects, and
//! how a batch folds into a report.
//!
//! The file system is the caller's: it reports what it saw of a path in a
//! `PathProbe`, runs each step that a `FileSession` asks for, and hands the
//! step's outcome back.
use vstd::prelude::*;
use vstd::string::*;

use crate::error::{error_text, lemma_error_text_nonempty, CleanerError};
use crate::types::{
    count_failed, count_successful, lemma_counts_bounded, CleanMode, CleanOptions, CleanReport,
    FileResult,
};

verus! {

/// What the caller saw of a path on disk.
pub struct PathProbe {
    /// The canonical absolute path, if the path could be resolved.
    pub resolved: Option<String>,
    /// Whether the resolved path still exists.
    pub exists: bool,
    /// Whether it is a directory.
    pub is_dir: bool,
    /// Whether it is a regular file.
    pub is_file: bool,
}

/// One entry of a directory walk.
pub struct WalkEntry {
    /// The entry's path.
    pub path: String,
    /// Its depth below the root; the root's children are at depth 1.
    pub depth: usize,
    /// Whether it is a regular file.
    pub is_file: bool,
}

/// A cleaning step, in the order in which the steps run.
#[derive(Debug, Clone, Copy, PartialEq, Eq, Structural)]
pub enum Backend {
    /// Delete the named streams.
    Streams,
    /// Reset the three timestamps to the neutral instant.
    Timestamps,
    /// Reassign the owner to a generic principal.
    Owner,
    /// Delete the property-carrying streams.
    Properties,
    /// Blank the properties inside an office document.
    OfficeXml,
}

/// What the caller does next for a file.
pub enum Action {
    /// Run this step and report its outcome.
    Run(Backend),
    /// The file is done, with this result.
    Finish(FileResult),
}

/// The state of one file's cleaning.
pub struct FileSession {
    /// The resolved path of the file.
    pub path: String,
    /// The options in force.
    pub options: CleanOptions,
    /// Steps before this index have been considered.
    pub stage: usize,
    /// Streams the stream step removed.
    pub streams_removed: usize,
    /// Whether the timestamp step succeeded.
    pub timestamps_reset: bool,
    /// The message of the first failed step.
    pub error: Option<String>,
}

/// The number of steps.
pub open spec fn step_count() -> int {
    5
}

/// The step at index `k` of the fixed order.
pub open spec fn backend_at(k: int) -> Backend {
    if k == 0 {
        Backend::Streams
    } else if k == 1 {
        Backend::Timestamps
    } else if k == 2 {
        Backend::Owner
    } else if k == 3 {
        Backend::Properties
    } else {
        Backend::OfficeXml
    }
}

/// Whether the step at index `k` is enabled by `o`.
pub open spec fn enabled(o: CleanOptions, k: int) -> bool {
    if k == 0 {
        o.clear_streams
    } else if k == 1 {
        o.clear_timestamps
    } else if k == 2 {
        o.clear_owner
    } else if k == 3 || k == 4 {
        o.clear_properties
    } else {
        false
    }
}

/// The index of the first enabled step at or after `k`; `step_count()` when
/// there is none.
pub open spec fn next_stage(o: CleanOptions, k: int) -> int
    decreases step_count() - k,
{
    if k >= step_count() {
        step_count()
    } else if enabled(o, k) {
        k
    } else {
        next_stage(o, k + 1)
    }
}

impl FileSession {
    /// The session's message, if any, is not empty.
    pub open spec fn wf(&self) -> bool {
        self.error matches Some(m) ==> m@.len() > 0
    }

    /// The step the session waits for: none in dry-run mode, after a failure,
    /// or once every enabled step has run.
    pub open spec fn pending(&self) -> Option<Backend> {
        if self.options.dry_run || self.error is Some {
            None
        } else if next_stage(self.options, self.stage as int) < step_count() {
            Some(backend_at(next_stage(self.options, self.stage as int)))
        } else {
            None
        }
    }

    /// `r` is the result the session ends with: in dry-run mode a success
    /// with nothing done; after a failure that failure; otherwise a success
    /// with what the steps did.
    pub open spec fn is_final_result(&self, r: FileResult) -> bool {
        &&& r.path@ == self.path@
        &&& if self.options.dry_run {
            r.success && r.error is None && r.streams_removed == 0 && !r.timestamps_reset
        } else if let Some(m) = self.error {
            !r.success && (r.error matches Some(e) && e@ == m@) && r.streams_removed == 0
                && !r.timestamps_reset
        } else {
            r.success && r.error is None && r.streams_removed == self.streams_removed
                && r.timestamps_reset == self.timestamps_reset
        }
    }

    /// The session after the pending step succeeded; `removed` counts the
    /// streams when that step is the stream step.
    pub open spec fn after_success(&self, removed: usize) -> FileSession {
        let k = next_stage(self.options, self.stage as int);
        FileSession {
            stage: (k + 1) as usize,
            streams_removed: if k == 0 {
                removed
            } else {
                self.streams_removed
            },
            timestamps_reset: self.timestamps_reset || k == 1,
            ..*self
        }
    }

    /// What the caller does next.
    pub fn next_action(&self) -> (r: Action)
        requires
            self.wf(),
        ensures
            self.pending() matches Some(b) ==> r == Action::Run(b),
            self.pending() is None ==> (r matches Action::Finish(fr) && self.is_final_result(fr)
                && fr.wf()),
    {
        if self.options.dry_run {
            return Action::Finish(FileResult::success(self.path.clone(), 0, false));
        }
        match &self.error {
            Some(m) => {
                return Action::Finish(FileResult::failure(self.path.clone(), m.clone()));
            },
            None => {},
        }
        let k = self.next_enabled();
        if k < 5 {
            Action::Run(
                if k == 0 {
                    Backend::Streams
                } else if k == 1 {
                    Backend::Timestamps
                } else if k == 2 {
                    Backend::Owner
                } else if k == 3 {
                    Backend::Properties
                } else {
                    Backend::OfficeXml
                },
            )
        } else {
            Action::Finish(
                FileResult::success(self.path.clone(), self.streams_removed, self.timestamps_reset),
            )
        }
    }

    /// The index of the first enabled step from the current stage on.
    fn next_enabled(&self) -> (k: usize)
        ensures
            k == next_stage(self.options, self.stage as int),
    {
        let o = self.options;
        let mut k = self.stage;
        if k > 5 {
            return 5;
        }
        while k < 5
            invariant
                k <= 5,
                o == self.options,
                next_stage(o, self.stage as int) == next_stage(o, k as int),
            decreases 5 - k,
        {
            let on = if k == 0 {
                o.clear_streams
            } else if k == 1 {
                o.clear_timestamps
            } else if k == 2 {
                o.clear_owner
            } else {
                o.clear_properties
            };
            if on {
                return k;
            }
            k = k + 1;
        }
        k
    }

    /// Takes in the outcome of the pending step: a failure ends the file with
    /// that failure's message; a success moves on, keeping the stream count of
    /// the stream step and noting a timestamp reset.
    pub fn record(&mut self, outcome: Result<usize, CleanerError>)
        requires
            old(self).wf(),
            old(self).pending() is Some,
        ensures
            final(self).wf(),
            outcome matches Ok(n) ==> *final(self) == old(self).after_success(n),
            outcome matches Err(e) ==> {
                &&& final(self).path == old(self).path
                &&& final(self).options == old(self).options
                &&& final(self).streams_removed == old(self).streams_removed
                &&& final(self).timestamps_reset == old(self).timestamps_reset
                &&& final(self).error matches Some(m) && m@ == error_text(e)
                &&& final(self).stage == next_stage(old(self).options, old(self).stage as int) + 1
            },
    {
        let k = self.next_enabled();
        self.stage = k + 1;
        match outcome {
            Ok(n) => {
                if k == 0 {
                    self.streams_removed = n;
                }
                if k == 1 {
                    self.timestamps_reset = true;
                }
            },
            Err(e) => {
                self.error = Some(e.message());
            },
        }
    }
}

/// The paths that a traversal selects from a walk's entries: files only, and
/// for `Shallow` only the direct children.
pub open spec fn selects(e: WalkEntry, mode: CleanMode) -> bool {
    e.is_file && e.depth >= 1 && (mode == CleanMode::Deep || e.depth == 1)
}

/// The entries of `listing` that a traversal in `mode` selects, in order.
pub open spec fn selected_entries(listing: Seq<WalkEntry>, mode: CleanMode) -> Seq<WalkEntry>
    decreases listing.len(),
{
    if listing.len() == 0 {
        seq![]
    } else if selects(listing.last(), mode) {
        selected_entries(listing.drop_last(), mode).push(listing.last())
    } else {
        selected_entries(listing.drop_last(), mode)
    }
}

/// The paths of the selected entries.
pub open spec fn selected_paths(listing: Seq<WalkEntry>, mode: CleanMode) -> Seq<Seq<char>> {
    selected_entries(listing, mode).map_values(|e: WalkEntry| e.path@)
}

/// One file's outcome in a batch: its result, or the error that kept it from
/// being cleaned.
pub struct FileOutcome {
    /// The file's path.
    pub path: String,
    /// What cleaning it gave.
    pub result: Result<FileResult, CleanerError>,
}

/// `r` is the report entry for `o`: the result itself, or a failure that
/// carries the error's message.
pub open spec fn reports(o: FileOutcome, r: FileResult) -> bool {
    match o.result {
        Ok(fr) => r == fr,
        Err(e) => r.path@ == o.path@ && !r.success && (r.error matches Some(m) && m@ == error_text(
            e,
        )) && r.streams_removed == 0 && !r.timestamps_reset,
    }
}

/// Streams reported removed over the successful outcomes.
pub open spec fn outcome_streams(os: Seq<FileOutcome>) -> nat
    decreases os.len(),
{
    if os.len() == 0 {
        0
    } else {
        outcome_streams(os.drop_last()) + match os.last().result {
            Ok(fr) => if fr.success {
                fr.streams_removed as nat
            } else {
                0nat
            },
            Err(_) => 0nat,
        }
    }
}

/// Orchestrates the cleaning of files with fixed options.
pub struct MetadataCleaner {
    /// The options, fixed for the cleaner's life.
    pub options: CleanOptions,
}

impl MetadataCleaner {
    /// A cleaner with every option off.
    pub fn new() -> (r: Self)
        ensures
            r.options == (CleanOptions {
                clear_timestamps: false,
                clear_streams: false,
                clear_attributes: false,
                clear_owner: false,
                clear_properties: false,
                dry_run: false,
                verbose: false,
            }),
    {
        MetadataCleaner { options: CleanOptions::default() }
    }

    /// A cleaner with `options`.
    pub fn with_options(options: CleanOptions) -> (r: Self)
        ensures
            r.options == options,
    {
        MetadataCleaner { options }
    }

    /// Starts cleaning the file at `path`, of which `probe` tells what is on
    /// disk. An unresolvable or vanished path is `PathNotFound`, a directory
    /// is `NotAFile`; otherwise the session starts at the first step.
    pub fn clean_file(&self, path: &str, probe: &PathProbe) -> (r: Result<FileSession, CleanerError>)
        ensures
            probe.resolved is None ==> (r matches Err(CleanerError::PathNotFound(p)) && p@
                == path@),
            probe.resolved matches Some(c) ==> {
                &&& !probe.exists ==> (r matches Err(CleanerError::PathNotFound(p)) && p@ == c@)
                &&& probe.exists && probe.is_dir ==> (r matches Err(CleanerError::NotAFile(p))
                    && p@ == c@)
                &&& probe.exists && !probe.is_dir ==> (r matches Ok(s) && s.path@ == c@
                    && s.options == self.options && s.stage == 0 && s.streams_removed == 0
                    && !s.timestamps_reset && s.error is None)
            },
            r matches Ok(s) ==> s.wf(),
    {
        let resolved = match &probe.resolved {
            Some(c) => c.clone(),
            None => {
                return Err(CleanerError::PathNotFound(String::from_str(path)));
            },
        };
        if !probe.exists {
            return Err(CleanerError::PathNotFound(resolved));
        }
        if probe.is_dir {
            return Err(CleanerError::NotAFile(resolved));
        }
        Ok(
            FileSession {
                path: resolved,
                options: self.options,
                stage: 0,
                streams_removed: 0,
                timestamps_reset: false,
                error: None,
            },
        )
    }

    /// The files that an operation in `mode` touches. `probe` tells what is on
    /// disk at `path` and `listing` is the walk below it, in the order the file
    /// system gave. A single file must be a file; a directory mode needs a
    /// directory and keeps, in order, the selected entries.
    pub fn collect_files(
        &self,
        path: &str,
        probe: &PathProbe,
        listing: &Vec<WalkEntry>,
        mode: CleanMode,
    ) -> (r: Result<Vec<String>, CleanerError>)
        ensures
            probe.resolved is None ==> (r matches Err(CleanerError::PathNotFound(p)) && p@
                == path@),
            probe.resolved matches Some(c) ==> {
                &&& mode == CleanMode::SingleFile && probe.is_file ==> (r matches Ok(v) && v@.len()
                    == 1 && v@[0]@ == c@)
                &&& mode == CleanMode::SingleFile && !probe.is_file ==> (r matches Err(
                    CleanerError::NotAFile(p),
                ) && p@ == c@)
                &&& mode != CleanMode::SingleFile && !probe.is_dir ==> (r matches Err(
                    CleanerError::NotADirectory(p),
                ) && p@ == c@)
                &&& mode != CleanMode::SingleFile && probe.is_dir ==> (r matches Ok(v) && v@.map_values(
                    |s: String| s@,
                ) == selected_paths(listing@, mode))
            },
    {
        let resolved = match &probe.resolved {
            Some(c) => c.clone(),
            None => {
                return Err(CleanerError::PathNotFound(String::from_str(path)));
            },
        };
        match mode {
            CleanMode::SingleFile => {
                if probe.is_file {
                    Ok(vec![resolved])
                } else {
                    Err(CleanerError::NotAFile(resolved))
                }
            },
            _ => {
                if !probe.is_dir {
                    return Err(CleanerError::NotADirectory(resolved));
                }
                Ok(select_files(listing, mode))
            },
        }
    }

    /// Folds a directory's file outcomes into a report, after checking that
    /// `path` is a directory; every outcome is counted, a failed one too.
    pub fn clean_directory_shallow(
        &self,
        path: &str,
        probe: &PathProbe,
        outcomes: Vec<FileOutcome>,
    ) -> (r: Result<CleanReport, CleanerError>)
        requires
            outcomes@.len() < usize::MAX,
            outcome_streams(outcomes@) <= usize::MAX,
        ensures
            directory_report(path@, *probe, outcomes@, r),
    {
        fold_directory(path, probe, outcomes)
    }

    /// As `clean_directory_shallow`, for the outcomes of a recursive walk.
    pub fn clean_directory_deep(
        &self,
        path: &str,
        probe: &PathProbe,
        outcomes: Vec<FileOutcome>,
    ) -> (r: Result<CleanReport, CleanerError>)
        requires
            outcomes@.len() < usize::MAX,
            outcome_streams(outcomes@) <= usize::MAX,
        ensures
            directory_report(path@, *probe, outcomes@, r),
    {
        fold_directory(path, probe, outcomes)
    }
}

/// `r` is what a directory operation on `path` gives: the root's errors, or a
/// report with one entry per outcome, in order.
pub open spec fn directory_report(
    path: Seq<char>,
    probe: PathProbe,
    outcomes: Seq<FileOutcome>,
    r: Result<CleanReport, CleanerError>,
) -> bool {
    match probe.resolved {
        None => r matches Err(CleanerError::PathNotFound(p)) && p@ == path,
        Some(c) => if !probe.exists {
            r matches Err(CleanerError::PathNotFound(p)) && p@ == c@
        } else if !probe.is_dir {
            r matches Err(CleanerError::NotADirectory(p)) && p@ == c@
        } else {
            r matches Ok(rep) && rep.wf() && rep.skipped == 0 && rep.file_results@.len()
                == outcomes.len() && forall|k: int|
                0 <= k < outcomes.len() ==> reports(outcomes[k], #[trigger] rep.file_results@[k])
        },
    }
}

/// The entries of `listing` that `mode` selects, as paths.
fn select_files(listing: &Vec<WalkEntry>, mode: CleanMode) -> (r: Vec<String>)
    ensures
        r@.map_values(|s: String| s@) == selected_paths(listing@, mode),
{
    let mut out: Vec<String> = Vec::new();
    let mut i: usize = 0;
    while i < listing.len()
        invariant
            i <= listing@.len(),
            out@.map_values(|s: String| s@) == selected_paths(
                listing@.subrange(0, i as int),
                mode,
            ),
        decreases listing@.len() - i,
    {
        let ghost before = listing@.subrange(0, i as int);
        let ghost after = listing@.subrange(0, i + 1);
        assert(after.drop_last() =~= before);
        let e = &listing[i];
        let keep = e.is_file && e.depth >= 1 && (match mode {
            CleanMode::Deep => true,
            _ => e.depth == 1,
        });
        if keep {
            let ghost prev = out@.map_values(|s: String| s@);
            out.push(e.path.clone());
            assert(out@.map_values(|s: String| s@) =~= prev.push(e.path@));
            assert(selected_paths(after, mode) =~= selected_paths(before, mode).push(e.path@));
        } else {
            assert(selected_paths(after, mode) =~= selected_paths(before, mode));
        }
        i = i + 1;
    }
    assert(listing@.subrange(0, i as int) =~= listing@);
    out
}

/// Checks the root of a directory operation and folds the outcomes.
fn fold_directory(path: &str, probe: &PathProbe, outcomes: Vec<FileOutcome>) -> (r: Result<
    CleanReport,
    CleanerError,
>)
    requires
        outcomes@.len() < usize::MAX,
        outcome_streams(outcomes@) <= usize::MAX,
    ensures
        directory_report(path@, *probe, outcomes@, r),
{
    let resolved = match &probe.resolved {
        Some(c) => c.clone(),
        None => {
            return Err(CleanerError::PathNotFound(String::from_str(path)));
        },
    };
    if !probe.exists {
        return Err(CleanerError::PathNotFound(resolved));
    }
    if !probe.is_dir {
        return Err(CleanerError::NotADirectory(resolved));
    }
    let ghost all = outcomes@;
    let mut report = CleanReport::new();
    let mut rest = outcomes;
    let mut i: usize = 0;
    let n = rest.len();
    while rest.len() > 0
        invariant
            i + rest@.len() == all.len(),
            n == all.len(),
            n < usize::MAX,
            outcome_streams(all) <= usize::MAX,
            rest@ == all.subrange(i as int, all.len() as int),
            report.wf(),
            report.skipped == 0,
            report.file_results@.len() == i,
            report.total_streams_removed == outcome_streams(all.subrange(0, i as int)),
            forall|k: int| 0 <= k < i ==> reports(all[k], #[trigger] report.file_results@[k]),
        decreases rest@.len(),
    {
        let o = rest.remove(0);
        assert(o == all[i as int]);
        assert(all.subrange(0, i + 1).drop_last() =~= all.subrange(0, i as int));
        proof {
            lemma_outcome_streams_prefix(all, i + 1, all.len() as int);
            assert(all.subrange(0, all.len() as int) =~= all);
        }
        let entry = match o.result {
            Ok(fr) => fr,
            Err(e) => FileResult::failure(o.path, e.message()),
        };
        report.add_result(entry);
        assert(rest@ =~= all.subrange(i + 1, all.len() as int));
        i = i + 1;
    }
    Ok(report)
}

/// The streams counted over a prefix never exceed those over a longer one.
proof fn lemma_outcome_streams_prefix(os: Seq<FileOutcome>, i: int, j: int)
    requires
        0 <= i <= j <= os.len(),
    ensures
        outcome_streams(os.subrange(0, i)) <= outcome_streams(os.subrange(0, j)),
    decreases j - i,
{
    if i < j {
        lemma_outcome_streams_prefix(os, i, j - 1);
        assert(os.subrange(0, j).drop_last() =~= os.subrange(0, j - 1));
    }
}

/// In dry-run mode no step is ever asked for, and the file's result is a
/// success that reports nothing removed and no timestamp reset.
pub proof fn lemma_dry_run_runs_no_step(s: FileSession, r: FileResult)
    requires
        s.options.dry_run,
    ensures
        s.pending() is None,
        s.is_final_result(r) ==> r.success && r.streams_removed == 0 && !r.timestamps_reset,
{
}

/// A full clean (streams, timestamps, properties) runs the stream, timestamp,
/// property-stream and office steps in that order; when every step succeeds
/// and the stream step finds nothing left to remove, as on a file cleaned
/// before, the file ends as a success with no stream removed and its
/// timestamps reset.
pub proof fn lemma_full_clean_of_clean_file(s: FileSession, r: FileResult)
    requires
        s.options == CleanOptions::all_spec(),
        s.stage == 0,
        s.error is None,
    ensures
        s.pending() == Some(Backend::Streams),
        s.after_success(0).pending() == Some(Backend::Timestamps),
        s.after_success(0).after_success(0).pending() == Some(Backend::Properties),
        s.after_success(0).after_success(0).after_success(0).pending() == Some(Backend::OfficeXml),
        s.after_success(0).after_success(0).after_success(0).after_success(0).pending() is None,
        s.after_success(0).after_success(0).after_success(0).after_success(0).is_final_result(r)
            ==> r.success && r.streams_removed == 0 && r.timestamps_reset,
{
    let o = s.options;
    assert(next_stage(o, 0) == 0);
    assert(next_stage(o, 1) == 1);
    assert(next_stage(o, 3) == 3);
    assert(next_stage(o, 2) == 3);
    assert(next_stage(o, 4) == 4);
    assert(next_stage(o, 5) == 5);
}

/// Files only, and only direct children for a shallow traversal.
pub proof fn lemma_selected_entries_are_files(listing: Seq<WalkEntry>, mode: CleanMode)
    ensures
        forall|k: int|
            0 <= k < selected_entries(listing, mode).len() ==> selects(
                #[trigger] selected_entries(listing, mode)[k],
                mode,
            ),
    decreases listing.len(),
{
    if listing.len() > 0 {
        let init = listing.drop_last();
        lemma_selected_entries_are_files(init, mode);
        let prev = selected_entries(init, mode);
        let sel = selected_entries(listing, mode);
        assert forall|k: int| 0 <= k < sel.len() implies selects(#[trigger] sel[k], mode) by {
            if k < prev.len() {
                assert(sel[k] == prev[k]);
            }
        }
    }
}

/// A shallow traversal keeps no entry below depth one and no directory; a
/// deep traversal keeps every file entry at any depth, and no directory.
pub proof fn lemma_shallow_and_deep(listing: Seq<WalkEntry>)
    ensures
        forall|k: int|
            0 <= k < selected_entries(listing, CleanMode::Shallow).len() ==> {
                let e = #[trigger] selected_entries(listing, CleanMode::Shallow)[k];
                e.is_file && e.depth == 1
            },
        forall|k: int|
            0 <= k < selected_entries(listing, CleanMode::Deep).len() ==> (
            #[trigger] selected_entries(listing, CleanMode::Deep)[k]).is_file,
        forall|k: int|
            0 <= k < listing.len() && (#[trigger] listing[k]).is_file && listing[k].depth >= 1
                ==> selected_entries(listing, CleanMode::Deep).contains(listing[k]),
    decreases listing.len(),
{
    lemma_selected_entries_are_files(listing, CleanMode::Shallow);
    lemma_selected_entries_are_files(listing, CleanMode::Deep);
    if listing.len() > 0 {
        let init = listing.drop_last();
        lemma_shallow_and_deep(init);
        assert forall|k: int|
            0 <= k < listing.len() && (#[trigger] listing[k]).is_file && listing[k].depth
                >= 1 implies selected_entries(listing, CleanMode::Deep).contains(listing[k]) by {
            if k < listing.len() - 1 {
                assert(init[k] == listing[k]);
                let j = choose|j: int|
                    0 <= j < selected_entries(init, CleanMode::Deep).len()
                        && selected_entries(init, CleanMode::Deep)[j] == listing[k];
                assert(selected_entries(listing, CleanMode::Deep)[j] == listing[k]);
            } else {
                let sel = selected_entries(listing, CleanMode::Deep);
                assert(sel[sel.len() - 1] == listing[k]);
            }
        }
    }
}

/// An outcome that the report counts as failed.
pub open spec fn outcome_fails(o: FileOutcome) -> bool {
    match o.result {
        Ok(fr) => !fr.success,
        Err(_) => true,
    }
}

/// The number of outcomes that the report counts as failed.
pub open spec fn count_failing(os: Seq<FileOutcome>) -> nat
    decreases os.len(),
{
    if os.len() == 0 {
        0
    } else {
        count_failing(os.drop_last()) + if outcome_fails(os.last()) {
            1nat
        } else {
            0nat
        }
    }
}

proof fn lemma_reported_counts(os: Seq<FileOutcome>, rs: Seq<FileResult>)
    requires
        os.len() == rs.len(),
        forall|k: int| 0 <= k < os.len() ==> reports(os[k], #[trigger] rs[k]),
    ensures
        count_failed(rs) == count_failing(os),
        count_successful(rs) + count_failing(os) == os.len(),
    decreases os.len(),
{
    lemma_counts_bounded(rs);
    if os.len() > 0 {
        let (os0, rs0) = (os.drop_last(), rs.drop_last());
        assert forall|k: int| 0 <= k < os0.len() implies reports(os0[k], #[trigger] rs0[k]) by {
            assert(reports(os[k], rs[k]));
        }
        lemma_reported_counts(os0, rs0);
        assert(reports(os[os.len() - 1], rs[rs.len() - 1]));
    }
}

/// A batch over a directory counts every outcome once: the failing ones (an
/// error, or a failed result) as failed, the others as successful. The entry
/// of a failing outcome is a failure with a message, when the outcome is an
/// error or a well-formed failed result. So three files of which one cannot
/// be read give three in total, one failed and two successful.
pub proof fn lemma_batch_counts(
    path: Seq<char>,
    probe: PathProbe,
    outcomes: Seq<FileOutcome>,
    r: Result<CleanReport, CleanerError>,
)
    requires
        directory_report(path, probe, outcomes, r),
        r is Ok,
    ensures
        r matches Ok(rep) ==> {
            &&& rep.total_files == outcomes.len()
            &&& rep.failed == count_failing(outcomes)
            &&& rep.successful == outcomes.len() - count_failing(outcomes)
            &&& rep.total_files == rep.successful + rep.failed
            &&& forall|k: int|
                0 <= k < outcomes.len() && outcome_fails(#[trigger] outcomes[k]) && (
                outcomes[k].result matches Ok(fr) ==> fr.wf()) ==> {
                    &&& !rep.file_results@[k].success
                    &&& rep.file_results@[k].error matches Some(m) && m@.len() > 0
                }
        },
{
    let rep = r->Ok_0;
    lemma_reported_counts(outcomes, rep.file_results@);
    assert forall|k: int|
        0 <= k < outcomes.len() && outcome_fails(#[trigger] outcomes[k]) && (
        outcomes[k].result matches Ok(fr) ==> fr.wf()) implies !rep.file_results@[k].success
        && (rep.file_results@[k].error matches Some(m) && m@.len() > 0) by {
        assert(reports(outcomes[k], rep.file_results@[k]));
        if let Err(e) = outcomes[k].result {
            lemma_error_text_nonempty(e);
        }
    }
}

} // verus!
