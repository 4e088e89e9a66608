//! Value types shared by the cleaner: traversal mode, options, per-file
//! results and the batch report.
use vstd::prelude::*;

verus! {

/// How far a directory operation descends.
#[derive(Debug, Clone, Copy, PartialEq, Eq, Structural)]
pub enum CleanMode {
    /// A single file only.
    SingleFile,
    /// The direct children of a directory.
    Shallow,
    /// Every file below a directory, at any depth.
    Deep,
}

impl CleanMode {
    /// Human-readable name of the mode.
    pub fn label(&self) -> (r: &'static str)
        ensures
            *self == CleanMode::SingleFile ==> r@ == "single file"@,
            *self == CleanMode::Shallow ==> r@ == "shallow (non-recursive)"@,
            *self == CleanMode::Deep ==> r@ == "deep (recursive)"@,
    {
        match self {
            CleanMode::SingleFile => "single file",
            CleanMode::Shallow => "shallow (non-recursive)",
            CleanMode::Deep => "deep (recursive)",
        }
    }
}

impl Default for CleanMode {
    fn default() -> (r: Self)
        ensures
            r == CleanMode::SingleFile,
    {
        CleanMode::SingleFile
    }
}

/// Which cleaning steps run. A value never changes after construction; the
/// `with_*` methods return a new value.
#[derive(Debug, Clone, Copy, PartialEq, Eq, Structural)]
pub struct CleanOptions {
    /// Reset creation, access and modification times.
    pub clear_timestamps: bool,
    /// Remove named data streams.
    pub clear_streams: bool,
    /// Clear extended attributes.
    pub clear_attributes: bool,
    /// Reassign the owner (needs elevated privileges).
    pub clear_owner: bool,
    /// Clear document properties.
    pub clear_properties: bool,
    /// Report what would happen without touching any file.
    pub dry_run: bool,
    /// Report each file.
    pub verbose: bool,
}

impl Default for CleanOptions {
    fn default() -> (r: Self)
        ensures
            r == (CleanOptions {
                clear_timestamps: false,
                clear_streams: false,
                clear_attributes: false,
                clear_owner: false,
                clear_properties: false,
                dry_run: false,
                verbose: false,
            }),
    {
        CleanOptions {
            clear_timestamps: false,
            clear_streams: false,
            clear_attributes: false,
            clear_owner: false,
            clear_properties: false,
            dry_run: false,
            verbose: false,
        }
    }
}

impl CleanOptions {
    /// Every unprivileged step enabled, owner clearing off.
    pub open spec fn all_spec() -> Self {
        CleanOptions {
            clear_timestamps: true,
            clear_streams: true,
            clear_attributes: true,
            clear_owner: false,
            clear_properties: true,
            dry_run: false,
            verbose: false,
        }
    }

    /// Every unprivileged step enabled; owner clearing stays off.
    pub fn all() -> (r: Self)
        ensures
            r == Self::all_spec(),
    {
        CleanOptions {
            clear_timestamps: true,
            clear_streams: true,
            clear_attributes: true,
            clear_owner: false,
            clear_properties: true,
            dry_run: false,
            verbose: false,
        }
    }

    /// The same options with dry-run set to `dry_run`.
    pub fn with_dry_run(self, dry_run: bool) -> (r: Self)
        ensures
            r == (CleanOptions { dry_run, ..self }),
    {
        CleanOptions { dry_run, ..self }
    }

    /// The same options with verbose output set to `verbose`.
    pub fn with_verbose(self, verbose: bool) -> (r: Self)
        ensures
            r == (CleanOptions { verbose, ..self }),
    {
        CleanOptions { verbose, ..self }
    }

    /// The same options with owner clearing set to `admin`.
    pub fn with_admin(self, admin: bool) -> (r: Self)
        ensures
            r == (CleanOptions { clear_owner: admin, ..self }),
    {
        CleanOptions { clear_owner: admin, ..self }
    }
}

/// Outcome of processing one file.
#[derive(Debug, Clone)]
pub struct FileResult {
    /// The resolved path of the file.
    pub path: String,
    /// Whether every enabled step succeeded.
    pub success: bool,
    /// Why the file failed, when it did.
    pub error: Option<String>,
    /// Named streams removed.
    pub streams_removed: usize,
    /// Whether the timestamps were reset.
    pub timestamps_reset: bool,
}

impl FileResult {
    /// A failed result carries a non-empty message and no mutation counts; a
    /// successful one carries no message.
    pub open spec fn wf(&self) -> bool {
        if self.success {
            self.error is None
        } else {
            &&& self.error matches Some(e) && e@.len() > 0
            &&& self.streams_removed == 0
            &&& !self.timestamps_reset
        }
    }

    /// A successful result.
    pub fn success(path: String, streams_removed: usize, timestamps_reset: bool) -> (r: Self)
        ensures
            r.path@ == path@,
            r.success,
            r.error is None,
            r.streams_removed == streams_removed,
            r.timestamps_reset == timestamps_reset,
            r.wf(),
    {
        FileResult { path, success: true, error: None, streams_removed, timestamps_reset }
    }

    /// A failed result with message `error`.
    pub fn failure(path: String, error: String) -> (r: Self)
        requires
            error@.len() > 0,
        ensures
            r.path@ == path@,
            !r.success,
            r.error matches Some(e) && e@ == error@,
            r.streams_removed == 0,
            !r.timestamps_reset,
            r.wf(),
    {
        FileResult { path, success: false, error: Some(error), streams_removed: 0, timestamps_reset: false }
    }
}

/// Running totals over the results of a batch.
#[derive(Debug, Clone)]
pub struct CleanReport {
    /// Files folded in.
    pub total_files: usize,
    /// Files that succeeded.
    pub successful: usize,
    /// Files that failed.
    pub failed: usize,
    /// Files skipped; counted apart from the per-file results.
    pub skipped: usize,
    /// Streams removed over the successful files.
    pub total_streams_removed: usize,
    /// Every result, in the order it was added.
    pub file_results: Vec<FileResult>,
}

/// Number of successful results in `rs`.
pub open spec fn count_successful(rs: Seq<FileResult>) -> nat
    decreases rs.len(),
{
    if rs.len() == 0 {
        0
    } else {
        count_successful(rs.drop_last()) + if rs.last().success { 1nat } else { 0nat }
    }
}

/// Number of failed results in `rs`.
pub open spec fn count_failed(rs: Seq<FileResult>) -> nat
    decreases rs.len(),
{
    if rs.len() == 0 {
        0
    } else {
        count_failed(rs.drop_last()) + if rs.last().success { 0nat } else { 1nat }
    }
}

/// Streams removed over the successful results in `rs`.
pub open spec fn sum_streams(rs: Seq<FileResult>) -> nat
    decreases rs.len(),
{
    if rs.len() == 0 {
        0
    } else {
        sum_streams(rs.drop_last()) + if rs.last().success {
            rs.last().streams_removed as nat
        } else {
            0nat
        }
    }
}

impl CleanReport {
    /// The counters agree with the list of results.
    pub open spec fn wf(&self) -> bool {
        &&& self.total_files == self.file_results@.len()
        &&& self.successful == count_successful(self.file_results@)
        &&& self.failed == count_failed(self.file_results@)
        &&& self.total_streams_removed == sum_streams(self.file_results@)
    }

    /// Whether one more result can be counted without overflow.
    pub open spec fn has_room(&self, r: FileResult) -> bool {
        &&& self.total_files < usize::MAX
        &&& r.success ==> self.total_streams_removed + r.streams_removed <= usize::MAX
    }

    /// An empty report.
    pub fn new() -> (r: Self)
        ensures
            r.wf(),
            r.total_files == 0,
            r.successful == 0,
            r.failed == 0,
            r.skipped == 0,
            r.total_streams_removed == 0,
            r.file_results@.len() == 0,
    {
        CleanReport {
            total_files: 0,
            successful: 0,
            failed: 0,
            skipped: 0,
            total_streams_removed: 0,
            file_results: Vec::new(),
        }
    }

    /// Folds one result in: the total grows by one, and either the successful
    /// count and the stream total, or the failed count.
    pub fn add_result(&mut self, result: FileResult)
        requires
            old(self).wf(),
            old(self).has_room(result),
        ensures
            final(self).wf(),
            final(self).total_files == final(self).successful + final(self).failed,
            final(self).file_results@ == old(self).file_results@.push(result),
            final(self).total_files == old(self).total_files + 1,
            final(self).skipped == old(self).skipped,
            result.success ==> final(self).successful == old(self).successful + 1
                && final(self).failed == old(self).failed
                && final(self).total_streams_removed == old(self).total_streams_removed
                + result.streams_removed,
            !result.success ==> final(self).failed == old(self).failed + 1
                && final(self).successful == old(self).successful
                && final(self).total_streams_removed == old(self).total_streams_removed,
    {
        proof {
            lemma_counts_bounded(self.file_results@);
            let rs2 = self.file_results@.push(result);
            assert(rs2.drop_last() == self.file_results@);
        }
        self.total_files = self.total_files + 1;
        if result.success {
            self.successful = self.successful + 1;
            self.total_streams_removed = self.total_streams_removed + result.streams_removed;
        } else {
            self.failed = self.failed + 1;
        }
        self.file_results.push(result);
        proof {
            lemma_counts_bounded(self.file_results@);
        }
    }

    /// Counts one skipped file.
    pub fn add_skipped(&mut self)
        requires
            old(self).skipped < usize::MAX,
        ensures
            *final(self) == (CleanReport { skipped: (old(self).skipped + 1) as usize, ..*old(self) }),
    {
        self.skipped = self.skipped + 1;
    }

    /// Whether no file failed.
    pub fn is_complete_success(&self) -> (r: bool)
        ensures
            r == (self.failed == 0),
    {
        self.failed == 0
    }
}

/// The successful and failed results together make up all of them.
pub proof fn lemma_counts_bounded(rs: Seq<FileResult>)
    ensures
        count_successful(rs) + count_failed(rs) == rs.len(),
    decreases rs.len(),
{
    if rs.len() > 0 {
        lemma_counts_bounded(rs.drop_last());
    }
}

/// For a well-formed report the total is the successful count plus the
/// failed count, whatever results were added to reach it.
pub proof fn lemma_total_is_successful_plus_failed(report: CleanReport)
    requires
        report.wf(),
    ensures
        report.total_files == report.successful + report.failed,
{
    lemma_counts_bounded(report.file_results@);
}

} // verus!
