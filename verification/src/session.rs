use vstd::prelude::*;

use crate::report::{Report, ReportKind, ReportV};
use crate::tree::{Tree, TreeV};

verus! {

/// Everything a run works on: the filesystem model, the resolved home
/// directory, the answers the console would give to interactive prompts, and
/// the log of what happened.  The mode flags are passed separately, since
/// they never change mid-run.
pub struct Session {
    /// The filesystem model that the run reads and mutates.
    pub tree: Tree,
    /// The home directory, if one could be determined.
    pub home: Option<String>,
    /// Predetermined interactive answers, `true` for yes; a run that asks
    /// more questions than there are answers reads a no.
    pub answers: Vec<bool>,
    /// How many answers have been consumed.
    pub used: usize,
    /// The run's log, in order.
    pub reports: Vec<Report>,
}

/// The mathematical value of a session.
pub struct SessionV {
    pub tree: TreeV,
    pub home: Option<Seq<char>>,
    pub answers: Seq<bool>,
    pub used: int,
    pub reports: Seq<ReportV>,
}

impl View for Session {
    type V = SessionV;

    open spec fn view(&self) -> SessionV {
        SessionV {
            tree: self.tree@,
            home: match self.home {
                Some(ref h) => Some(h@),
                None => None,
            },
            answers: self.answers@,
            used: self.used as int,
            reports: self.reports.deep_view(),
        }
    }
}

/// The session after appending one report.
pub open spec fn spec_report(s: SessionV, path: Seq<char>, kind: ReportKind) -> SessionV {
    SessionV { reports: s.reports.push(ReportV { path, kind }), ..s }
}

/// The session after consuming one interactive answer, and that answer; an
/// exhausted tape answers no.
pub open spec fn spec_next_answer(s: SessionV) -> (SessionV, bool) {
    if s.used < s.answers.len() {
        (SessionV { used: s.used + 1, ..s }, s.answers[s.used])
    } else {
        (s, false)
    }
}

impl Session {
    /// A session over a tree, with a home directory and an answer tape.
    pub fn new(tree: Tree, home: Option<String>, answers: Vec<bool>) -> (r: Session)
        ensures
            r@.tree == tree@,
            r@.home == (match home {
                Some(h) => Some::<Seq<char>>(h@),
                None => None::<Seq<char>>,
            }),
            r@.answers == answers@,
            r@.used == 0,
            r@.reports == Seq::<ReportV>::empty(),
    {
        let s = Session { tree, home, answers, used: 0, reports: Vec::new() };
        proof {
            assert(s.reports.deep_view() =~= Seq::<ReportV>::empty());
        }
        s
    }

    /// Appends one report to the run's log.
    pub fn report(&mut self, path: String, kind: ReportKind)
        ensures
            final(self)@ == spec_report(old(self)@, path@, kind),
    {
        let ghost pv = path@;
        self.reports.push(Report { path, kind });
        proof {
            assert(self.reports.deep_view() =~= old(self).reports.deep_view().push(
                ReportV { path: pv, kind },
            ));
        }
    }

    /// Consumes one interactive answer.
    pub fn next_answer(&mut self) -> (yes: bool)
        ensures
            (final(self)@, yes) == spec_next_answer(old(self)@),
    {
        if self.used < self.answers.len() {
            let a = self.answers[self.used];
            self.used = self.used + 1;
            a
        } else {
            false
        }
    }
}

} // verus!
