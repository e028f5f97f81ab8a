use vstd::prelude::*;

use crate::engine::{spec_conf_name, spec_run, spec_walk_deps, spec_walk_link, spec_walk_links,
    spec_walk_node, Operation};
use crate::file::{spec_deploy_link, spec_undeploy_link};
use crate::paths::{spec_expand_tilde, spec_join};
use crate::report::{ErrorKind, ReportKind, ReportV};
use crate::resolve::{spec_classify, spec_removable_occupant, PreState};
use crate::run_mode::RunMode;
use crate::session::{spec_report, SessionV};
use crate::tree::{lemma_lookup_push, lemma_lookup_remove, lemma_lookup_remove_subtree,
    lemma_remove_push, spec_lookup, EntryV};

verus! {

proof fn lemma_dry_link(
    s: SessionV,
    op: Operation,
    mode: RunMode,
    dir: Seq<char>,
    target: Seq<char>,
    link: Seq<char>,
)
    requires
        mode.dry_run,
    ensures
        spec_walk_link(s, op, mode, dir, target, link).tree == s.tree,
        spec_walk_link(s, op, mode, dir, target, link).home == s.home,
{
}

proof fn lemma_dry_links(
    s: SessionV,
    op: Operation,
    mode: RunMode,
    dir: Seq<char>,
    links: Seq<(Seq<char>, Seq<char>)>,
)
    requires
        mode.dry_run,
    ensures
        spec_walk_links(s, op, mode, dir, links).tree == s.tree,
    decreases links.len(),
{
    if links.len() > 0 {
        lemma_dry_link(s, op, mode, dir, links[0].0, links[0].1);
        lemma_dry_links(
            spec_walk_link(s, op, mode, dir, links[0].0, links[0].1),
            op,
            mode,
            dir,
            links.drop_first(),
        );
    }
}

proof fn lemma_dry_node(
    s: SessionV,
    op: Operation,
    mode: RunMode,
    dir: Seq<char>,
    conf: Seq<char>,
    visited: Seq<Seq<char>>,
    fuel: nat,
)
    requires
        mode.dry_run,
    ensures
        spec_walk_node(s, op, mode, dir, conf, visited, fuel).tree == s.tree,
    decreases fuel, 0int, 0int,
{
    if fuel > 0 {
        let s1 = spec_report(s, conf, ReportKind::Visit);
        match spec_lookup(s1.tree, conf) {
            Some(EntryV::File(text)) => match crate::config::spec_parse_config(text) {
                Some(cfg) => {
                    lemma_dry_links(s1, op, mode, dir, cfg.links);
                    lemma_dry_deps(
                        spec_walk_links(s1, op, mode, dir, cfg.links),
                        op,
                        mode,
                        dir,
                        cfg.dependencies,
                        visited,
                        (fuel - 1) as nat,
                    );
                },
                None => {},
            },
            _ => {},
        }
    }
}

proof fn lemma_dry_deps(
    s: SessionV,
    op: Operation,
    mode: RunMode,
    dir: Seq<char>,
    deps: Seq<(Seq<char>, Seq<char>)>,
    visited: Seq<Seq<char>>,
    fuel: nat,
)
    requires
        mode.dry_run,
    ensures
        spec_walk_deps(s, op, mode, dir, deps, visited, fuel).tree == s.tree,
    decreases fuel, 1int, deps.len(),
{
    if deps.len() > 0 {
        let child = spec_join(dir, deps[0].1);
        let s1 = if visited.contains(child) {
            spec_report(s, child, ReportKind::CycleRefused)
        } else {
            match spec_lookup(s.tree, child) {
                Some(EntryV::Dir) => spec_walk_node(
                    s,
                    op,
                    mode,
                    child,
                    spec_join(child, spec_conf_name()),
                    visited.push(child),
                    fuel,
                ),
                _ => spec_report(s, child, ReportKind::Failed(ErrorKind::DependencyUnreachable)),
            }
        };
        if !visited.contains(child) && spec_lookup(s.tree, child) matches Some(EntryV::Dir) {
            lemma_dry_node(
                s,
                op,
                mode,
                child,
                spec_join(child, spec_conf_name()),
                visited.push(child),
                fuel,
            );
        }
        lemma_dry_deps(s1, op, mode, dir, deps.drop_first(), visited, fuel);
    }
}

/// Dry-run purity: a run with dry-run set mutates nothing — whatever the
/// configuration tree declares and whatever the mode's other flags say, the
/// filesystem model after the run is the one before it, while every node is
/// still visited and every decision still reported.
pub proof fn lemma_dry_run_pure(
    s: SessionV,
    op: Operation,
    mode: RunMode,
    config: Seq<char>,
    start_dir: Seq<char>,
)
    requires
        mode.dry_run,
    ensures
        spec_run(s, op, mode, config, start_dir).tree == s.tree,
{
    lemma_dry_node(
        s,
        op,
        mode,
        start_dir,
        spec_join(start_dir, config),
        seq![start_dir],
        crate::engine::spec_fuel(s.tree.len()),
    );
}

/// Conflict policy, force half: when the link location is occupied by
/// something removable — a symlink to the wrong place, a regular file or a
/// directory — and force is set without interactive, deploy replaces the
/// occupant, whatever it was: afterwards the location holds a symlink to the
/// canonical target.
pub proof fn lemma_force_always_replaces(
    s: SessionV,
    mode: RunMode,
    dir: Seq<char>,
    target: Seq<char>,
    link: Seq<char>,
)
    requires
        mode.force,
        !mode.interactive,
        !mode.dry_run,
        s.home is Some,
        spec_lookup(s.tree, spec_join(dir, target)) is Some,
        spec_removable_occupant(
            spec_classify(
                spec_lookup(s.tree, spec_expand_tilde(link, s.home.unwrap())),
                spec_join(dir, target),
            ),
        ),
    ensures
        spec_lookup(
            spec_deploy_link(s, mode, dir, target, link).tree,
            spec_expand_tilde(link, s.home.unwrap()),
        ) == Some(EntryV::Symlink(spec_join(dir, target))),
{
    let canon = spec_join(dir, target);
    let lp = spec_expand_tilde(link, s.home.unwrap());
    let pre = spec_classify(spec_lookup(s.tree, lp), canon);
    if pre == PreState::Directory {
        lemma_lookup_remove_subtree(s.tree, lp, lp);
        lemma_lookup_push(
            crate::tree::spec_remove_subtree(s.tree, lp),
            lp,
            EntryV::Symlink(canon),
            lp,
        );
    } else {
        lemma_lookup_remove(s.tree, lp, lp);
        lemma_lookup_push(crate::tree::spec_remove(s.tree, lp), lp, EntryV::Symlink(canon), lp);
    }
}

/// Conflict policy, default half, reported: when the link location is
/// occupied by something removable and neither force nor interactive is set,
/// deploy leaves the tree exactly as it is and reports the conflict.
pub proof fn lemma_default_reports_conflict(
    s: SessionV,
    mode: RunMode,
    dir: Seq<char>,
    target: Seq<char>,
    link: Seq<char>,
)
    requires
        !mode.force,
        !mode.interactive,
        s.home is Some,
        spec_lookup(s.tree, spec_join(dir, target)) is Some,
        spec_removable_occupant(
            spec_classify(
                spec_lookup(s.tree, spec_expand_tilde(link, s.home.unwrap())),
                spec_join(dir, target),
            ),
        ),
    ensures
        spec_deploy_link(s, mode, dir, target, link).tree == s.tree,
        spec_deploy_link(s, mode, dir, target, link).reports == s.reports.push(
            ReportV {
                path: spec_expand_tilde(link, s.home.unwrap()),
                kind: ReportKind::Failed(ErrorKind::LinkConflict),
            },
        ),
{
}

/// Idempotence: deploying the same link twice, without prompts in between,
/// changes nothing on the second run — the tree stays exactly as the first
/// run left it, and no mutating action is reported.  After a create or a
/// replace the location holds a symlink to the canonical target, which the
/// second run classifies as already linked; after a failure or a skip the
/// second run fails or skips the same way.
pub proof fn lemma_deploy_link_idempotent(
    s: SessionV,
    mode: RunMode,
    dir: Seq<char>,
    target: Seq<char>,
    link: Seq<char>,
)
    requires
        !mode.interactive,
        !mode.dry_run,
    ensures
        ({
            let s1 = spec_deploy_link(s, mode, dir, target, link);
            let s2 = spec_deploy_link(s1, mode, dir, target, link);
            s2.tree == s1.tree && forall|j: int|
                s1.reports.len() <= j < s2.reports.len() ==> !crate::report::spec_mutates(
                    #[trigger] s2.reports[j].kind,
                )
        }),
{
    let canon = spec_join(dir, target);
    let s1 = spec_deploy_link(s, mode, dir, target, link);
    if spec_lookup(s.tree, canon) is Some && s.home is Some {
        let home = s.home.unwrap();
        let lp = spec_expand_tilde(link, home);
        let pre = spec_classify(spec_lookup(s.tree, lp), canon);
        match pre {
            PreState::Absent => {
                // created: the second run sees a symlink to the same target
                lemma_lookup_push(s.tree, lp, EntryV::Symlink(canon), canon);
                lemma_lookup_push(s.tree, lp, EntryV::Symlink(canon), lp);
            },
            PreState::SymlinkToSameTarget => {},
            PreState::Other => {},
            _ => {
                if mode.force {
                    // replaced: the occupant went; the second run either sees
                    // the fresh symlink, or — when the removal of a directory
                    // took the target itself — misses the target and mutates
                    // nothing.
                    if pre == PreState::Directory {
                        let cleared = crate::tree::spec_remove_subtree(s.tree, lp);
                        lemma_lookup_remove_subtree(s.tree, lp, lp);
                        lemma_lookup_remove_subtree(s.tree, lp, canon);
                        lemma_lookup_push(cleared, lp, EntryV::Symlink(canon), canon);
                        lemma_lookup_push(cleared, lp, EntryV::Symlink(canon), lp);
                    } else {
                        let cleared = crate::tree::spec_remove(s.tree, lp);
                        lemma_lookup_remove(s.tree, lp, lp);
                        lemma_lookup_remove(s.tree, lp, canon);
                        lemma_lookup_push(cleared, lp, EntryV::Symlink(canon), canon);
                        lemma_lookup_push(cleared, lp, EntryV::Symlink(canon), lp);
                    }
                }
            },
        }
    }
}

/// The location one `links` entry (target, link) is deployed to.
pub open spec fn spec_entry_location(entry: (Seq<char>, Seq<char>), home: Seq<char>) -> Seq<char> {
    spec_expand_tilde(entry.1, home)
}

/// The canonical target one `links` entry names at a node directory.
pub open spec fn spec_entry_target(dir: Seq<char>, entry: (Seq<char>, Seq<char>)) -> Seq<char> {
    spec_join(dir, entry.0)
}

/// No entry's target stands at any entry's link location.  Without this a
/// second run can do new work: a first run may create a symlink at the very
/// path another entry needs as its target, so that entry fails once and
/// succeeds on the next run.
pub open spec fn spec_targets_clear_of_locations(
    dir: Seq<char>,
    links: Seq<(Seq<char>, Seq<char>)>,
    home: Seq<char>,
) -> bool {
    forall|i: int, j: int|
        0 <= i < links.len() && 0 <= j < links.len() ==> spec_entry_target(dir, #[trigger] links[j])
            != spec_entry_location(#[trigger] links[i], home)
}

/// An entry is settled in a tree when deploying it again cannot mutate:
/// either its target is missing, or its location is occupied.
pub open spec fn spec_entry_settled(
    t: crate::tree::TreeV,
    dir: Seq<char>,
    entry: (Seq<char>, Seq<char>),
    home: Seq<char>,
) -> bool {
    ||| spec_lookup(t, spec_entry_target(dir, entry)) is None
    ||| spec_lookup(t, spec_entry_location(entry, home)) is Some
}

/// Under the default policy one deploy step changes no path but its own link
/// location.
proof fn lemma_default_link_frame(
    s: SessionV,
    mode: RunMode,
    dir: Seq<char>,
    target: Seq<char>,
    link: Seq<char>,
    q: Seq<char>,
)
    requires
        !mode.force,
        !mode.interactive,
        match s.home {
            Some(home) => q != spec_expand_tilde(link, home),
            None => true,
        },
    ensures
        spec_lookup(spec_deploy_link(s, mode, dir, target, link).tree, q) == spec_lookup(
            s.tree,
            q,
        ),
{
    let canon = spec_join(dir, target);
    if spec_lookup(s.tree, canon) is Some && s.home is Some {
        let lp = spec_expand_tilde(link, s.home.unwrap());
        if spec_lookup(s.tree, lp) is None {
            lemma_lookup_push(s.tree, lp, EntryV::Symlink(canon), q);
        }
    }
}

/// One deploy step settles its own entry under the default policy.
proof fn lemma_default_link_settles(
    s: SessionV,
    mode: RunMode,
    dir: Seq<char>,
    target: Seq<char>,
    link: Seq<char>,
)
    requires
        !mode.force,
        !mode.interactive,
        !mode.dry_run,
        s.home is Some,
    ensures
        spec_entry_settled(
            spec_deploy_link(s, mode, dir, target, link).tree,
            dir,
            (target, link),
            s.home.unwrap(),
        ),
{
    let canon = spec_join(dir, target);
    let lp = spec_expand_tilde(link, s.home.unwrap());
    if spec_lookup(s.tree, canon) is Some {
        if spec_lookup(s.tree, lp) is None {
            lemma_lookup_push(s.tree, lp, EntryV::Symlink(canon), lp);
            lemma_lookup_push(s.tree, lp, EntryV::Symlink(canon), canon);
        }
    }
}

/// The remaining entries of a default-policy pass keep an entry settled, as
/// long as none of their locations is the settled entry's target.
proof fn lemma_default_links_keep_settled(
    s: SessionV,
    mode: RunMode,
    dir: Seq<char>,
    links: Seq<(Seq<char>, Seq<char>)>,
    entry: (Seq<char>, Seq<char>),
    home: Seq<char>,
)
    requires
        !mode.force,
        !mode.interactive,
        s.home == Some(home),
        spec_entry_settled(s.tree, dir, entry, home),
        forall|i: int|
            0 <= i < links.len() ==> spec_entry_target(dir, entry) != spec_entry_location(
                #[trigger] links[i],
                home,
            ),
    ensures
        spec_entry_settled(
            spec_walk_links(s, Operation::Deploy, mode, dir, links).tree,
            dir,
            entry,
            home,
        ),
    decreases links.len(),
{
    if links.len() > 0 {
        let s1 = spec_walk_link(s, Operation::Deploy, mode, dir, links[0].0, links[0].1);
        lemma_default_link_frame(
            s,
            mode,
            dir,
            links[0].0,
            links[0].1,
            spec_entry_target(dir, entry),
        );
        if spec_lookup(s.tree, spec_entry_location(entry, home)) is Some {
            lemma_default_link_preserves(
                s,
                mode,
                dir,
                links[0].0,
                links[0].1,
                spec_entry_location(entry, home),
            );
        }
        lemma_walk_link_keeps_home(s, Operation::Deploy, mode, dir, links[0].0, links[0].1);
        lemma_default_links_keep_settled(s1, mode, dir, links.drop_first(), entry, home);
    }
}

/// No per-link step changes the home directory or the node's mode.
proof fn lemma_walk_link_keeps_home(
    s: SessionV,
    op: Operation,
    mode: RunMode,
    dir: Seq<char>,
    target: Seq<char>,
    link: Seq<char>,
)
    ensures
        spec_walk_link(s, op, mode, dir, target, link).home == s.home,
{
}

proof fn lemma_walk_links_keep_home(
    s: SessionV,
    op: Operation,
    mode: RunMode,
    dir: Seq<char>,
    links: Seq<(Seq<char>, Seq<char>)>,
)
    ensures
        spec_walk_links(s, op, mode, dir, links).home == s.home,
    decreases links.len(),
{
    if links.len() > 0 {
        lemma_walk_link_keeps_home(s, op, mode, dir, links[0].0, links[0].1);
        lemma_walk_links_keep_home(
            spec_walk_link(s, op, mode, dir, links[0].0, links[0].1),
            op,
            mode,
            dir,
            links.drop_first(),
        );
    }
}

/// After a default-policy pass over a node's link table, the entry at any
/// index is settled: deploying it again cannot mutate.
proof fn lemma_default_links_settle_one(
    s: SessionV,
    mode: RunMode,
    dir: Seq<char>,
    links: Seq<(Seq<char>, Seq<char>)>,
    home: Seq<char>,
    idx: int,
)
    requires
        !mode.force,
        !mode.interactive,
        !mode.dry_run,
        s.home == Some(home),
        0 <= idx < links.len(),
        forall|i: int|
            0 <= i < links.len() ==> spec_entry_target(dir, links[idx]) != spec_entry_location(
                #[trigger] links[i],
                home,
            ),
    ensures
        spec_entry_settled(
            spec_walk_links(s, Operation::Deploy, mode, dir, links).tree,
            dir,
            links[idx],
            home,
        ),
    decreases links.len(),
{
    let s1 = spec_walk_link(s, Operation::Deploy, mode, dir, links[0].0, links[0].1);
    lemma_walk_link_keeps_home(s, Operation::Deploy, mode, dir, links[0].0, links[0].1);
    if idx == 0 {
        lemma_default_link_settles(s, mode, dir, links[0].0, links[0].1);
        assert forall|i: int| 0 <= i < links.drop_first().len() implies spec_entry_target(
            dir,
            links[0],
        ) != spec_entry_location(#[trigger] links.drop_first()[i], home) by {
            assert(links.drop_first()[i] == links[i + 1]);
        }
        lemma_default_links_keep_settled(s1, mode, dir, links.drop_first(), links[0], home);
    } else {
        assert forall|i: int| 0 <= i < links.drop_first().len() implies spec_entry_target(
            dir,
            links.drop_first()[idx - 1],
        ) != spec_entry_location(#[trigger] links.drop_first()[i], home) by {
            assert(links.drop_first()[i] == links[i + 1]);
            assert(links.drop_first()[idx - 1] == links[idx]);
        }
        lemma_default_links_settle_one(s1, mode, dir, links.drop_first(), home, idx - 1);
        assert(links.drop_first()[idx - 1] == links[idx]);
    }
}

/// Deploying a settled entry under the default policy reports exactly one
/// non-mutating outcome and leaves the tree alone.
proof fn lemma_default_settled_link_static(
    s: SessionV,
    mode: RunMode,
    dir: Seq<char>,
    target: Seq<char>,
    link: Seq<char>,
)
    requires
        !mode.force,
        !mode.interactive,
        match s.home {
            Some(home) => spec_entry_settled(s.tree, dir, (target, link), home),
            None => true,
        },
    ensures
        ({
            let s1 = spec_deploy_link(s, mode, dir, target, link);
            &&& s1.tree == s.tree
            &&& s1.home == s.home
            &&& s1.reports.len() == s.reports.len() + 1
            &&& s1.reports.take(s.reports.len() as int) == s.reports
            &&& !crate::report::spec_mutates(s1.reports.last().kind)
        }),
{
    let s1 = spec_deploy_link(s, mode, dir, target, link);
    assert(s1.reports.take(s.reports.len() as int) =~= s.reports);
}

/// A default-policy pass over a link table whose entries are all settled
/// mutates nothing and reports no mutation.
proof fn lemma_default_pass_static(
    s: SessionV,
    mode: RunMode,
    dir: Seq<char>,
    links: Seq<(Seq<char>, Seq<char>)>,
)
    requires
        !mode.force,
        !mode.interactive,
        match s.home {
            Some(home) => forall|j: int|
                0 <= j < links.len() ==> spec_entry_settled(
                    s.tree,
                    dir,
                    #[trigger] links[j],
                    home,
                ),
            None => true,
        },
    ensures
        ({
            let s1 = spec_walk_links(s, Operation::Deploy, mode, dir, links);
            &&& s1.tree == s.tree
            &&& s1.reports.len() >= s.reports.len()
            &&& s1.reports.take(s.reports.len() as int) == s.reports
            &&& forall|k: int|
                s.reports.len() <= k < s1.reports.len() ==> !crate::report::spec_mutates(
                    #[trigger] s1.reports[k].kind,
                )
        }),
    decreases links.len(),
{
    if links.len() == 0 {
        assert(s.reports.take(s.reports.len() as int) =~= s.reports);
    } else {
        lemma_default_settled_link_static(s, mode, dir, links[0].0, links[0].1);
        let s1 = spec_walk_link(s, Operation::Deploy, mode, dir, links[0].0, links[0].1);
        assert forall|j: int| 0 <= j < links.drop_first().len() implies (match s1.home {
            Some(home) => spec_entry_settled(s1.tree, dir, #[trigger] links.drop_first()[j], home),
            None => true,
        }) by {
            assert(links.drop_first()[j] == links[j + 1]);
        }
        lemma_default_pass_static(s1, mode, dir, links.drop_first());
        let s2 = spec_walk_links(s1, Operation::Deploy, mode, dir, links.drop_first());
        assert(s2.reports.take(s.reports.len() as int) =~= s.reports);
    }
}

/// Idempotence over a whole node's link table, under the default policy:
/// when no declared target stands at a declared link location, running the
/// node's deploy pass twice leaves the tree exactly as the first pass left
/// it, and the second pass reports no mutation at all.
pub proof fn lemma_deploy_links_idempotent(
    s: SessionV,
    mode: RunMode,
    dir: Seq<char>,
    links: Seq<(Seq<char>, Seq<char>)>,
)
    requires
        !mode.force,
        !mode.interactive,
        !mode.dry_run,
        match s.home {
            Some(home) => spec_targets_clear_of_locations(dir, links, home),
            None => true,
        },
    ensures
        ({
            let s1 = spec_walk_links(s, Operation::Deploy, mode, dir, links);
            let s2 = spec_walk_links(s1, Operation::Deploy, mode, dir, links);
            &&& s2.tree == s1.tree
            &&& forall|k: int|
                s1.reports.len() <= k < s2.reports.len() ==> !crate::report::spec_mutates(
                    #[trigger] s2.reports[k].kind,
                )
        }),
{
    let s1 = spec_walk_links(s, Operation::Deploy, mode, dir, links);
    lemma_walk_links_keep_home(s, Operation::Deploy, mode, dir, links);
    match s.home {
        Some(home) => {
            assert forall|j: int| 0 <= j < links.len() implies spec_entry_settled(
                s1.tree,
                dir,
                #[trigger] links[j],
                home,
            ) by {
                lemma_default_links_settle_one(s, mode, dir, links, home, j);
            }
            lemma_default_pass_static(s1, mode, dir, links);
        },
        None => {
            lemma_default_pass_static(s1, mode, dir, links);
        },
    }
}

/// Deploy/undeploy symmetry: on an initially clean location — nothing at the
/// expanded link path — a deploy followed by an undeploy restores the tree
/// exactly: the undeploy removes precisely the symlink the deploy created,
/// and neither touches anything else.
pub proof fn lemma_deploy_undeploy_symmetric(
    s: SessionV,
    mode: RunMode,
    dir: Seq<char>,
    target: Seq<char>,
    link: Seq<char>,
)
    requires
        !mode.interactive,
        !mode.dry_run,
        match s.home {
            Some(home) => spec_lookup(s.tree, spec_expand_tilde(link, home)) is None,
            None => true,
        },
    ensures
        spec_undeploy_link(spec_deploy_link(s, mode, dir, target, link), mode, link).tree
            == s.tree,
{
    let canon = spec_join(dir, target);
    if s.home is Some {
        let home = s.home.unwrap();
        let lp = spec_expand_tilde(link, home);
        if spec_lookup(s.tree, canon) is Some {
            lemma_lookup_push(s.tree, lp, EntryV::Symlink(canon), lp);
            lemma_remove_push(s.tree, lp, EntryV::Symlink(canon));
        }
    }
}

proof fn lemma_default_link_preserves(
    s: SessionV,
    mode: RunMode,
    dir: Seq<char>,
    target: Seq<char>,
    link: Seq<char>,
    q: Seq<char>,
)
    requires
        !mode.force,
        !mode.interactive,
        spec_lookup(s.tree, q) is Some,
    ensures
        spec_lookup(spec_deploy_link(s, mode, dir, target, link).tree, q) == spec_lookup(
            s.tree,
            q,
        ),
{
    let canon = spec_join(dir, target);
    if spec_lookup(s.tree, canon) is Some && s.home is Some {
        let lp = spec_expand_tilde(link, s.home.unwrap());
        if spec_lookup(s.tree, lp) is None {
            lemma_lookup_push(s.tree, lp, EntryV::Symlink(canon), q);
        }
    }
}

proof fn lemma_default_links_preserve(
    s: SessionV,
    mode: RunMode,
    dir: Seq<char>,
    links: Seq<(Seq<char>, Seq<char>)>,
    q: Seq<char>,
)
    requires
        !mode.force,
        !mode.interactive,
        spec_lookup(s.tree, q) is Some,
    ensures
        spec_lookup(
            spec_walk_links(s, Operation::Deploy, mode, dir, links).tree,
            q,
        ) == spec_lookup(s.tree, q),
    decreases links.len(),
{
    if links.len() > 0 {
        lemma_default_link_preserves(s, mode, dir, links[0].0, links[0].1, q);
        lemma_default_links_preserve(
            spec_walk_link(s, Operation::Deploy, mode, dir, links[0].0, links[0].1),
            mode,
            dir,
            links.drop_first(),
            q,
        );
    }
}

proof fn lemma_default_node_preserves(
    s: SessionV,
    mode: RunMode,
    dir: Seq<char>,
    conf: Seq<char>,
    visited: Seq<Seq<char>>,
    fuel: nat,
    q: Seq<char>,
)
    requires
        !mode.force,
        !mode.interactive,
        spec_lookup(s.tree, q) is Some,
    ensures
        spec_lookup(
            spec_walk_node(s, Operation::Deploy, mode, dir, conf, visited, fuel).tree,
            q,
        ) == spec_lookup(s.tree, q),
    decreases fuel, 0int, 0int,
{
    if fuel > 0 {
        let s1 = spec_report(s, conf, ReportKind::Visit);
        match spec_lookup(s1.tree, conf) {
            Some(EntryV::File(text)) => match crate::config::spec_parse_config(text) {
                Some(cfg) => {
                    lemma_default_links_preserve(s1, mode, dir, cfg.links, q);
                    lemma_default_deps_preserve(
                        spec_walk_links(s1, Operation::Deploy, mode, dir, cfg.links),
                        mode,
                        dir,
                        cfg.dependencies,
                        visited,
                        (fuel - 1) as nat,
                        q,
                    );
                },
                None => {},
            },
            _ => {},
        }
    }
}

proof fn lemma_default_deps_preserve(
    s: SessionV,
    mode: RunMode,
    dir: Seq<char>,
    deps: Seq<(Seq<char>, Seq<char>)>,
    visited: Seq<Seq<char>>,
    fuel: nat,
    q: Seq<char>,
)
    requires
        !mode.force,
        !mode.interactive,
        spec_lookup(s.tree, q) is Some,
    ensures
        spec_lookup(
            spec_walk_deps(s, Operation::Deploy, mode, dir, deps, visited, fuel).tree,
            q,
        ) == spec_lookup(s.tree, q),
    decreases fuel, 1int, deps.len(),
{
    if deps.len() > 0 {
        let child = spec_join(dir, deps[0].1);
        let s1 = if visited.contains(child) {
            spec_report(s, child, ReportKind::CycleRefused)
        } else {
            match spec_lookup(s.tree, child) {
                Some(EntryV::Dir) => spec_walk_node(
                    s,
                    Operation::Deploy,
                    mode,
                    child,
                    spec_join(child, spec_conf_name()),
                    visited.push(child),
                    fuel,
                ),
                _ => spec_report(s, child, ReportKind::Failed(ErrorKind::DependencyUnreachable)),
            }
        };
        if !visited.contains(child) && spec_lookup(s.tree, child) matches Some(EntryV::Dir) {
            lemma_default_node_preserves(
                s,
                mode,
                child,
                spec_join(child, spec_conf_name()),
                visited.push(child),
                fuel,
                q,
            );
        }
        lemma_default_deps_preserve(s1, mode, dir, deps.drop_first(), visited, fuel, q);
    }
}

proof fn lemma_undeploy_link_preserves_nonsymlinks(
    s: SessionV,
    mode: RunMode,
    link: Seq<char>,
    q: Seq<char>,
)
    requires
        match spec_lookup(s.tree, q) {
            Some(e) => !(e is Symlink),
            None => false,
        },
    ensures
        spec_lookup(spec_undeploy_link(s, mode, link).tree, q) == spec_lookup(s.tree, q),
{
    if s.home is Some {
        let lp = spec_expand_tilde(link, s.home.unwrap());
        if spec_lookup(s.tree, lp) matches Some(EntryV::Symlink(_)) {
            lemma_lookup_remove(s.tree, lp, q);
        }
    }
}

proof fn lemma_undeploy_links_preserve_nonsymlinks(
    s: SessionV,
    mode: RunMode,
    dir: Seq<char>,
    links: Seq<(Seq<char>, Seq<char>)>,
    q: Seq<char>,
)
    requires
        match spec_lookup(s.tree, q) {
            Some(e) => !(e is Symlink),
            None => false,
        },
    ensures
        spec_lookup(
            spec_walk_links(s, Operation::Undeploy, mode, dir, links).tree,
            q,
        ) == spec_lookup(s.tree, q),
    decreases links.len(),
{
    if links.len() > 0 {
        lemma_undeploy_link_preserves_nonsymlinks(s, mode, links[0].1, q);
        lemma_undeploy_links_preserve_nonsymlinks(
            spec_walk_link(s, Operation::Undeploy, mode, dir, links[0].0, links[0].1),
            mode,
            dir,
            links.drop_first(),
            q,
        );
    }
}

proof fn lemma_undeploy_node_preserves_nonsymlinks(
    s: SessionV,
    mode: RunMode,
    dir: Seq<char>,
    conf: Seq<char>,
    visited: Seq<Seq<char>>,
    fuel: nat,
    q: Seq<char>,
)
    requires
        match spec_lookup(s.tree, q) {
            Some(e) => !(e is Symlink),
            None => false,
        },
    ensures
        spec_lookup(
            spec_walk_node(s, Operation::Undeploy, mode, dir, conf, visited, fuel).tree,
            q,
        ) == spec_lookup(s.tree, q),
    decreases fuel, 0int, 0int,
{
    if fuel > 0 {
        let s1 = spec_report(s, conf, ReportKind::Visit);
        match spec_lookup(s1.tree, conf) {
            Some(EntryV::File(text)) => match crate::config::spec_parse_config(text) {
                Some(cfg) => {
                    lemma_undeploy_links_preserve_nonsymlinks(s1, mode, dir, cfg.links, q);
                    lemma_undeploy_deps_preserve_nonsymlinks(
                        spec_walk_links(s1, Operation::Undeploy, mode, dir, cfg.links),
                        mode,
                        dir,
                        cfg.dependencies,
                        visited,
                        (fuel - 1) as nat,
                        q,
                    );
                },
                None => {},
            },
            _ => {},
        }
    }
}

proof fn lemma_undeploy_deps_preserve_nonsymlinks(
    s: SessionV,
    mode: RunMode,
    dir: Seq<char>,
    deps: Seq<(Seq<char>, Seq<char>)>,
    visited: Seq<Seq<char>>,
    fuel: nat,
    q: Seq<char>,
)
    requires
        match spec_lookup(s.tree, q) {
            Some(e) => !(e is Symlink),
            None => false,
        },
    ensures
        spec_lookup(
            spec_walk_deps(s, Operation::Undeploy, mode, dir, deps, visited, fuel).tree,
            q,
        ) == spec_lookup(s.tree, q),
    decreases fuel, 1int, deps.len(),
{
    if deps.len() > 0 {
        let child = spec_join(dir, deps[0].1);
        let s1 = if visited.contains(child) {
            spec_report(s, child, ReportKind::CycleRefused)
        } else {
            match spec_lookup(s.tree, child) {
                Some(EntryV::Dir) => spec_walk_node(
                    s,
                    Operation::Undeploy,
                    mode,
                    child,
                    spec_join(child, spec_conf_name()),
                    visited.push(child),
                    fuel,
                ),
                _ => spec_report(s, child, ReportKind::Failed(ErrorKind::DependencyUnreachable)),
            }
        };
        if !visited.contains(child) && spec_lookup(s.tree, child) matches Some(EntryV::Dir) {
            lemma_undeploy_node_preserves_nonsymlinks(
                s,
                mode,
                child,
                spec_join(child, spec_conf_name()),
                visited.push(child),
                fuel,
                q,
            );
        }
        lemma_undeploy_deps_preserve_nonsymlinks(s1, mode, dir, deps.drop_first(), visited, fuel, q);
    }
}

/// How a run may change the entry at one path: not at all, to nothing, or to
/// a symlink.
pub open spec fn spec_changes_only_to_symlink(t0: crate::tree::TreeV, t: crate::tree::TreeV, q: Seq<char>) -> bool {
    ||| spec_lookup(t, q) == spec_lookup(t0, q)
    ||| spec_lookup(t, q) is None
    ||| spec_lookup(t, q) matches Some(EntryV::Symlink(_))
}

proof fn lemma_link_changes_only_to_symlink(
    s: SessionV,
    op: Operation,
    mode: RunMode,
    dir: Seq<char>,
    target: Seq<char>,
    link: Seq<char>,
    q: Seq<char>,
)
    ensures
        spec_changes_only_to_symlink(
            s.tree,
            spec_walk_link(s, op, mode, dir, target, link).tree,
            q,
        ),
{
    match op {
        Operation::Deploy => {
            let canon = spec_join(dir, target);
            if spec_lookup(s.tree, canon) is Some && s.home is Some {
                let lp = spec_expand_tilde(link, s.home.unwrap());
                let pre = spec_classify(spec_lookup(s.tree, lp), canon);
                if spec_lookup(s.tree, lp) is None {
                    lemma_lookup_push(s.tree, lp, EntryV::Symlink(canon), q);
                }
                if pre == PreState::Directory {
                    lemma_lookup_remove_subtree(s.tree, lp, q);
                    lemma_lookup_push(
                        crate::tree::spec_remove_subtree(s.tree, lp),
                        lp,
                        EntryV::Symlink(canon),
                        q,
                    );
                } else {
                    lemma_lookup_remove(s.tree, lp, q);
                    lemma_lookup_push(
                        crate::tree::spec_remove(s.tree, lp),
                        lp,
                        EntryV::Symlink(canon),
                        q,
                    );
                }
            }
        },
        Operation::Undeploy => {
            if s.home is Some {
                let lp = spec_expand_tilde(link, s.home.unwrap());
                lemma_lookup_remove(s.tree, lp, q);
            }
        },
    }
}

proof fn lemma_links_change_only_to_symlinks(
    s: SessionV,
    op: Operation,
    mode: RunMode,
    dir: Seq<char>,
    links: Seq<(Seq<char>, Seq<char>)>,
    q: Seq<char>,
)
    ensures
        spec_changes_only_to_symlink(
            s.tree,
            spec_walk_links(s, op, mode, dir, links).tree,
            q,
        ),
    decreases links.len(),
{
    if links.len() > 0 {
        lemma_link_changes_only_to_symlink(s, op, mode, dir, links[0].0, links[0].1, q);
        lemma_links_change_only_to_symlinks(
            spec_walk_link(s, op, mode, dir, links[0].0, links[0].1),
            op,
            mode,
            dir,
            links.drop_first(),
            q,
        );
    }
}

proof fn lemma_node_changes_only_to_symlinks(
    s: SessionV,
    op: Operation,
    mode: RunMode,
    dir: Seq<char>,
    conf: Seq<char>,
    visited: Seq<Seq<char>>,
    fuel: nat,
    q: Seq<char>,
)
    ensures
        spec_changes_only_to_symlink(
            s.tree,
            spec_walk_node(s, op, mode, dir, conf, visited, fuel).tree,
            q,
        ),
    decreases fuel, 0int, 0int,
{
    if fuel > 0 {
        let s1 = spec_report(s, conf, ReportKind::Visit);
        match spec_lookup(s1.tree, conf) {
            Some(EntryV::File(text)) => match crate::config::spec_parse_config(text) {
                Some(cfg) => {
                    lemma_links_change_only_to_symlinks(s1, op, mode, dir, cfg.links, q);
                    lemma_deps_change_only_to_symlinks(
                        spec_walk_links(s1, op, mode, dir, cfg.links),
                        op,
                        mode,
                        dir,
                        cfg.dependencies,
                        visited,
                        (fuel - 1) as nat,
                        q,
                    );
                },
                None => {},
            },
            _ => {},
        }
    }
}

proof fn lemma_deps_change_only_to_symlinks(
    s: SessionV,
    op: Operation,
    mode: RunMode,
    dir: Seq<char>,
    deps: Seq<(Seq<char>, Seq<char>)>,
    visited: Seq<Seq<char>>,
    fuel: nat,
    q: Seq<char>,
)
    ensures
        spec_changes_only_to_symlink(
            s.tree,
            spec_walk_deps(s, op, mode, dir, deps, visited, fuel).tree,
            q,
        ),
    decreases fuel, 1int, deps.len(),
{
    if deps.len() > 0 {
        let child = spec_join(dir, deps[0].1);
        let s1 = if visited.contains(child) {
            spec_report(s, child, ReportKind::CycleRefused)
        } else {
            match spec_lookup(s.tree, child) {
                Some(EntryV::Dir) => spec_walk_node(
                    s,
                    op,
                    mode,
                    child,
                    spec_join(child, spec_conf_name()),
                    visited.push(child),
                    fuel,
                ),
                _ => spec_report(s, child, ReportKind::Failed(ErrorKind::DependencyUnreachable)),
            }
        };
        if !visited.contains(child) && spec_lookup(s.tree, child) matches Some(EntryV::Dir) {
            lemma_node_changes_only_to_symlinks(
                s,
                op,
                mode,
                child,
                spec_join(child, spec_conf_name()),
                visited.push(child),
                fuel,
                q,
            );
        }
        lemma_deps_change_only_to_symlinks(s1, op, mode, dir, deps.drop_first(), visited, fuel, q);
    }
}

/// Run safety, for both operations and every mode: a run changes the entry
/// at a path only to create a symlink there or to remove what stood in a
/// symlink's way — any path whose entry differs after the run is now either
/// absent or a symlink.  No run ever rebinds a path to a file, a directory
/// or anything else.
pub proof fn lemma_run_changes_only_to_symlinks(
    s: SessionV,
    op: Operation,
    mode: RunMode,
    config: Seq<char>,
    start_dir: Seq<char>,
    q: Seq<char>,
)
    ensures
        spec_changes_only_to_symlink(
            s.tree,
            spec_run(s, op, mode, config, start_dir).tree,
            q,
        ),
{
    lemma_node_changes_only_to_symlinks(
        s,
        op,
        mode,
        start_dir,
        spec_join(start_dir, config),
        seq![start_dir],
        crate::engine::spec_fuel(s.tree.len()),
        q,
    );
}

/// Undeploy safety, over a whole run: whatever the configuration tree
/// declares and whatever the mode, an undeploy run removes only symlinks —
/// every path that holds a regular file, a directory or anything else keeps
/// its entry unchanged.
pub proof fn lemma_undeploy_run_removes_only_symlinks(
    s: SessionV,
    mode: RunMode,
    config: Seq<char>,
    start_dir: Seq<char>,
    q: Seq<char>,
)
    requires
        match spec_lookup(s.tree, q) {
            Some(e) => !(e is Symlink),
            None => false,
        },
    ensures
        spec_lookup(
            spec_run(s, Operation::Undeploy, mode, config, start_dir).tree,
            q,
        ) == spec_lookup(s.tree, q),
{
    lemma_undeploy_node_preserves_nonsymlinks(
        s,
        mode,
        start_dir,
        spec_join(start_dir, config),
        seq![start_dir],
        crate::engine::spec_fuel(s.tree.len()),
        q,
    );
}

/// Conflict policy, default half, over a whole run: with neither force nor
/// interactive set, a deploy run never mutates any occupied path — every
/// entry the tree held before the run it holds, unchanged, after it.  A
/// default-mode deploy only fills free locations.
pub proof fn lemma_default_run_preserves_occupants(
    s: SessionV,
    mode: RunMode,
    config: Seq<char>,
    start_dir: Seq<char>,
    q: Seq<char>,
)
    requires
        !mode.force,
        !mode.interactive,
        spec_lookup(s.tree, q) is Some,
    ensures
        spec_lookup(
            spec_run(s, Operation::Deploy, mode, config, start_dir).tree,
            q,
        ) == spec_lookup(s.tree, q),
{
    lemma_default_node_preserves(
        s,
        mode,
        start_dir,
        spec_join(start_dir, config),
        seq![start_dir],
        crate::engine::spec_fuel(s.tree.len()),
        q,
    );
}

} // verus!
