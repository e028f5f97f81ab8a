use vstd::prelude::*;

use crate::log::LogLevel;

verus! {

/// The failures the engine can report.  Per-entry failures never abort the
/// walk: they are reported and the run continues with the remaining entries.
#[derive(Clone, Copy, Debug, PartialEq, Eq, Structural)]
pub enum ErrorKind {
    /// The configuration file could not be read.
    ConfigUnreadable,
    /// The configuration file could not be parsed.
    ConfigMalformed,
    /// A declared link's target does not exist.
    TargetNotFound,
    /// The home directory could not be determined.
    HomeDirUnavailable,
    /// The link location is occupied and no policy permits removal.
    LinkConflict,
    /// The filesystem denied an operation.
    PermissionDenied,
    /// A declared dependency directory cannot be entered.
    DependencyUnreachable,
}

/// What happened, or would happen, at one path during a run.
#[derive(Clone, Copy, Debug, PartialEq, Eq, Structural)]
pub enum ReportKind {
    /// The walker entered a configuration node.
    Visit,
    /// A symlink was created at a previously absent location.
    Created,
    /// The occupant of the link location was removed and the symlink created.
    Replaced,
    /// The location already holds a symlink to the canonical target.
    AlreadyLinked,
    /// The user declined the interactive removal prompt.
    SkippedDeclined,
    /// The occupant is neither symlink, file nor directory: no safe removal
    /// strategy exists, so the entry is skipped under every policy.
    SkippedUnremovable,
    /// Undeploy removed the symlink at the link location.
    Removed,
    /// Undeploy found nothing at the link location.
    AlreadyAbsent,
    /// Undeploy found something other than a symlink and left it alone.
    SkippedNotSymlink,
    /// The dependency directory is already on the current recursion path.
    CycleRefused,
    /// The recursion guard ran out before the node could be entered.
    DepthExceeded,
    /// The entry failed; the walk went on with its siblings.
    Failed(ErrorKind),
}

/// One log line of a run: a path and what happened there.
#[derive(Clone, Debug)]
pub struct Report {
    pub path: String,
    pub kind: ReportKind,
}

/// The mathematical value of a report.
pub struct ReportV {
    pub path: Seq<char>,
    pub kind: ReportKind,
}

impl View for Report {
    type V = ReportV;

    open spec fn view(&self) -> ReportV {
        ReportV { path: self.path@, kind: self.kind }
    }
}

impl DeepView for Report {
    type V = ReportV;

    open spec fn deep_view(&self) -> ReportV {
        self.view()
    }
}

/// Whether a report of this kind records a filesystem mutation (in a dry run
/// the same kinds are reported while every mutation is elided).
pub open spec fn spec_mutates(kind: ReportKind) -> bool {
    match kind {
        ReportKind::Created => true,
        ReportKind::Replaced => true,
        ReportKind::Removed => true,
        _ => false,
    }
}

impl Report {
    pub fn new(path: String, kind: ReportKind) -> (r: Report)
        ensures
            r@.path == path@,
            r@.kind == kind,
    {
        Report { path, kind }
    }

    /// The severity at which this report should be shown.
    pub fn level(&self) -> (r: LogLevel)
        ensures
            r == self@.kind.spec_level(),
    {
        match self.kind {
            ReportKind::Failed(_) => LogLevel::Error,
            _ => LogLevel::Info,
        }
    }
}

impl ReportKind {
    /// Failures are errors; everything else is informational.
    pub open spec fn spec_level(self) -> LogLevel {
        match self {
            ReportKind::Failed(_) => LogLevel::Error,
            _ => LogLevel::Info,
        }
    }
}

} // verus!
