use vstd::prelude::*;

use crate::paths::{expand_tilde, join_path, spec_expand_tilde, spec_join};
use crate::report::{ErrorKind, ReportKind};
use crate::resolve::{classify, decide_after_prompt, decide_deploy, spec_classify,
    spec_decide_after_prompt, spec_decide_deploy, LinkAction, PreState};
use crate::run_mode::RunMode;
use crate::session::{spec_next_answer, spec_report, Session, SessionV};
use crate::tree::{spec_lookup, spec_remove, spec_remove_subtree, Entry, EntryV};

verus! {

/// The session after creating the symlink `lp -> canon` at a free location;
/// a dry run only reports.
pub open spec fn spec_create(s: SessionV, mode: RunMode, lp: Seq<char>, canon: Seq<char>) -> SessionV {
    if mode.dry_run {
        spec_report(s, lp, ReportKind::Created)
    } else {
        spec_report(
            SessionV { tree: s.tree.push((lp, EntryV::Symlink(canon))), ..s },
            lp,
            ReportKind::Created,
        )
    }
}

/// The session after removing the occupant of `lp` — a directory together
/// with everything below it, anything else by itself — and creating the
/// symlink `lp -> canon`; a dry run only reports.
pub open spec fn spec_replace(
    s: SessionV,
    mode: RunMode,
    lp: Seq<char>,
    canon: Seq<char>,
    pre: PreState,
) -> SessionV {
    if mode.dry_run {
        spec_report(s, lp, ReportKind::Replaced)
    } else {
        let cleared = if pre == PreState::Directory {
            spec_remove_subtree(s.tree, lp)
        } else {
            spec_remove(s.tree, lp)
        };
        spec_report(
            SessionV { tree: cleared.push((lp, EntryV::Symlink(canon))), ..s },
            lp,
            ReportKind::Replaced,
        )
    }
}

/// The session after carrying out the decision about one resolved link.
pub open spec fn spec_apply_deploy(
    s: SessionV,
    mode: RunMode,
    lp: Seq<char>,
    canon: Seq<char>,
    pre: PreState,
) -> SessionV {
    match spec_decide_deploy(pre, mode) {
        LinkAction::NoOp => spec_report(s, lp, ReportKind::AlreadyLinked),
        LinkAction::Create => spec_create(s, mode, lp, canon),
        LinkAction::ReplaceAfterRemove => spec_replace(s, mode, lp, canon, pre),
        LinkAction::Skip => spec_report(s, lp, ReportKind::SkippedUnremovable),
        LinkAction::Fail => spec_report(s, lp, ReportKind::Failed(ErrorKind::LinkConflict)),
        LinkAction::AskUser => {
            let (s1, yes) = spec_next_answer(s);
            if spec_decide_after_prompt(yes) == LinkAction::ReplaceAfterRemove {
                spec_replace(s1, mode, lp, canon, pre)
            } else {
                spec_report(s1, lp, ReportKind::SkippedDeclined)
            }
        },
    }
}

/// The session after deploying one declared link of the node at `dir`: the
/// link path has its home token expanded, the target is resolved against the
/// node's directory and must exist, the location is classified, and the
/// decision under the active policy is carried out.
pub open spec fn spec_deploy_link(
    s: SessionV,
    mode: RunMode,
    dir: Seq<char>,
    target: Seq<char>,
    link: Seq<char>,
) -> SessionV {
    match s.home {
        None => spec_report(s, link, ReportKind::Failed(ErrorKind::HomeDirUnavailable)),
        Some(home) => {
            let canon = spec_join(dir, target);
            if spec_lookup(s.tree, canon) is None {
                spec_report(s, canon, ReportKind::Failed(ErrorKind::TargetNotFound))
            } else {
                let lp = spec_expand_tilde(link, home);
                let pre = spec_classify(spec_lookup(s.tree, lp), canon);
                spec_apply_deploy(s, mode, lp, canon, pre)
            }
        },
    }
}

/// The session after removing the symlink at `lp`; a dry run only reports.
pub open spec fn spec_do_remove(s: SessionV, mode: RunMode, lp: Seq<char>) -> SessionV {
    if mode.dry_run {
        spec_report(s, lp, ReportKind::Removed)
    } else {
        spec_report(SessionV { tree: spec_remove(s.tree, lp), ..s }, lp, ReportKind::Removed)
    }
}

/// The session after undeploying one declared link: nothing to do when the
/// location is empty, hands off when it holds anything but a symlink, and
/// otherwise the symlink is removed — after a prompt when interactive.
pub open spec fn spec_undeploy_link(s: SessionV, mode: RunMode, link: Seq<char>) -> SessionV {
    match s.home {
        None => spec_report(s, link, ReportKind::Failed(ErrorKind::HomeDirUnavailable)),
        Some(home) => {
            let lp = spec_expand_tilde(link, home);
            match spec_lookup(s.tree, lp) {
                None => spec_report(s, lp, ReportKind::AlreadyAbsent),
                Some(EntryV::Symlink(_)) => if mode.interactive {
                    let (s1, yes) = spec_next_answer(s);
                    if yes {
                        spec_do_remove(s1, mode, lp)
                    } else {
                        spec_report(s1, lp, ReportKind::SkippedDeclined)
                    }
                } else {
                    spec_do_remove(s, mode, lp)
                },
                Some(_) => spec_report(s, lp, ReportKind::SkippedNotSymlink),
            }
        },
    }
}

fn create_at(sess: &mut Session, mode: RunMode, lp: String, canon: String)
    ensures
        final(sess)@ == spec_create(old(sess)@, mode, lp@, canon@),
{
    if mode.dry_run {
        sess.report(lp, ReportKind::Created);
    } else {
        sess.tree.put(lp.clone(), Entry::Symlink(canon));
        sess.report(lp, ReportKind::Created);
    }
}

fn replace_at(sess: &mut Session, mode: RunMode, lp: String, canon: String, pre: PreState)
    ensures
        final(sess)@ == spec_replace(old(sess)@, mode, lp@, canon@, pre),
{
    if mode.dry_run {
        sess.report(lp, ReportKind::Replaced);
    } else {
        if pre == PreState::Directory {
            sess.tree.remove_subtree(&lp);
        } else {
            sess.tree.remove_exact(&lp);
        }
        sess.tree.put(lp.clone(), Entry::Symlink(canon));
        sess.report(lp, ReportKind::Replaced);
    }
}

fn apply_deploy(sess: &mut Session, mode: RunMode, lp: String, canon: String, pre: PreState)
    ensures
        final(sess)@ == spec_apply_deploy(old(sess)@, mode, lp@, canon@, pre),
{
    match decide_deploy(pre, mode) {
        LinkAction::NoOp => sess.report(lp, ReportKind::AlreadyLinked),
        LinkAction::Create => create_at(sess, mode, lp, canon),
        LinkAction::ReplaceAfterRemove => replace_at(sess, mode, lp, canon, pre),
        LinkAction::Skip => sess.report(lp, ReportKind::SkippedUnremovable),
        LinkAction::Fail => sess.report(lp, ReportKind::Failed(ErrorKind::LinkConflict)),
        LinkAction::AskUser => {
            let yes = sess.next_answer();
            match decide_after_prompt(yes) {
                LinkAction::ReplaceAfterRemove => replace_at(sess, mode, lp, canon, pre),
                _ => sess.report(lp, ReportKind::SkippedDeclined),
            }
        },
    }
}

/// Deploys one declared link of the node at `dir`.
pub fn deploy_link(sess: &mut Session, mode: RunMode, dir: &String, target: &String, link: &String)
    ensures
        final(sess)@ == spec_deploy_link(old(sess)@, mode, dir@, target@, link@),
{
    let home = match &sess.home {
        Some(h) => h.clone(),
        None => {
            sess.report(link.clone(), ReportKind::Failed(ErrorKind::HomeDirUnavailable));
            return ;
        },
    };
    let canon = join_path(dir.as_str(), target.as_str());
    let target_exists = { sess.tree.lookup_entry(&canon).is_some() };
    if !target_exists {
        sess.report(canon, ReportKind::Failed(ErrorKind::TargetNotFound));
        return ;
    }
    let lp = expand_tilde(link.as_str(), home.as_str());
    let pre = {
        let e = sess.tree.lookup_entry(&lp);
        classify(e, &canon)
    };
    apply_deploy(sess, mode, lp, canon, pre);
}

fn remove_at(sess: &mut Session, mode: RunMode, lp: String)
    ensures
        final(sess)@ == spec_do_remove(old(sess)@, mode, lp@),
{
    if mode.dry_run {
        sess.report(lp, ReportKind::Removed);
    } else {
        sess.tree.remove_exact(&lp);
        sess.report(lp, ReportKind::Removed);
    }
}

/// Undeploys one declared link: only a symlink is ever removed.
pub fn undeploy_link(sess: &mut Session, mode: RunMode, link: &String)
    ensures
        final(sess)@ == spec_undeploy_link(old(sess)@, mode, link@),
{
    let home = match &sess.home {
        Some(h) => h.clone(),
        None => {
            sess.report(link.clone(), ReportKind::Failed(ErrorKind::HomeDirUnavailable));
            return ;
        },
    };
    let lp = expand_tilde(link.as_str(), home.as_str());
    let (present, is_link) = {
        let e = sess.tree.lookup_entry(&lp);
        match e {
            None => (false, false),
            Some(Entry::Symlink(_)) => (true, true),
            Some(_) => (true, false),
        }
    };
    if !present {
        sess.report(lp, ReportKind::AlreadyAbsent);
    } else if !is_link {
        sess.report(lp, ReportKind::SkippedNotSymlink);
    } else if mode.interactive {
        let yes = sess.next_answer();
        if yes {
            remove_at(sess, mode, lp);
        } else {
            sess.report(lp, ReportKind::SkippedDeclined);
        }
    } else {
        remove_at(sess, mode, lp);
    }
}

} // verus!
