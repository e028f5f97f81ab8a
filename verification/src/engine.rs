use vstd::prelude::*;

use crate::config::{parse_config, spec_parse_config};
use crate::file::{deploy_link, spec_deploy_link, spec_undeploy_link, undeploy_link};
use crate::paths::{join_path, spec_join};
use crate::report::{ErrorKind, ReportKind};
use crate::run_mode::{init_run_mode, spec_run_mode, RunArgs, RunMode};
use crate::session::{spec_report, Session, SessionV};
use crate::tree::{spec_lookup, Entry, EntryV};

verus! {

/// The two symmetric operations the walker can run over a tree of nodes.
#[derive(Clone, Copy, Debug, PartialEq, Eq, Structural)]
pub enum Operation {
    /// Create the declared links.
    Deploy,
    /// Remove those of the declared links that are symlinks.
    Undeploy,
}

/// The conventional name of the configuration file in each node's directory.
pub open spec fn spec_conf_name() -> Seq<char> {
    "xdotter.toml"@
}

/// The recursion guard of a run: one level more than the tree has entries.
/// Every directory the walker may enter holds a configuration file, so no
/// dependency chain without a cycle can be deeper; cycles themselves are
/// refused by the visited-path check.
pub open spec fn spec_fuel(n: nat) -> nat {
    if n < usize::MAX {
        (n + 1) as nat
    } else {
        n
    }
}

/// One entry of the `links` table, handed to the operation's per-link step.
pub open spec fn spec_walk_link(
    s: SessionV,
    op: Operation,
    mode: RunMode,
    dir: Seq<char>,
    target: Seq<char>,
    link: Seq<char>,
) -> SessionV {
    match op {
        Operation::Deploy => spec_deploy_link(s, mode, dir, target, link),
        Operation::Undeploy => spec_undeploy_link(s, mode, link),
    }
}

/// The session after processing every `links` entry of one node, in the
/// order the parsed document gives them.
pub open spec fn spec_walk_links(
    s: SessionV,
    op: Operation,
    mode: RunMode,
    dir: Seq<char>,
    links: Seq<(Seq<char>, Seq<char>)>,
) -> SessionV
    decreases links.len(),
{
    if links.len() == 0 {
        s
    } else {
        spec_walk_links(
            spec_walk_link(s, op, mode, dir, links[0].0, links[0].1),
            op,
            mode,
            dir,
            links.drop_first(),
        )
    }
}

/// The session after visiting one node: its configuration is read out of the
/// tree and parsed, its links are processed, and its dependencies are walked
/// in turn.  A node whose configuration cannot be read or parsed is reported
/// and the walk goes on; it never aborts the run.
pub open spec fn spec_walk_node(
    s: SessionV,
    op: Operation,
    mode: RunMode,
    dir: Seq<char>,
    conf: Seq<char>,
    visited: Seq<Seq<char>>,
    fuel: nat,
) -> SessionV
    decreases fuel, 0int, 0int,
{
    if fuel == 0 {
        spec_report(s, conf, ReportKind::DepthExceeded)
    } else {
        let s1 = spec_report(s, conf, ReportKind::Visit);
        match spec_lookup(s1.tree, conf) {
            Some(EntryV::File(text)) => match spec_parse_config(text) {
                Some(cfg) => spec_walk_deps(
                    spec_walk_links(s1, op, mode, dir, cfg.links),
                    op,
                    mode,
                    dir,
                    cfg.dependencies,
                    visited,
                    (fuel - 1) as nat,
                ),
                None => spec_report(s1, conf, ReportKind::Failed(ErrorKind::ConfigMalformed)),
            },
            _ => spec_report(s1, conf, ReportKind::Failed(ErrorKind::ConfigUnreadable)),
        }
    }
}

/// The session after walking the `dependencies` entries of one node.  Each
/// subdirectory is resolved against the node's directory; one that is
/// already on the current recursion path is refused, one that is not a
/// directory of the tree is unreachable, and the rest are visited
/// recursively.  A failed dependency never stops its siblings.
pub open spec fn spec_walk_deps(
    s: SessionV,
    op: Operation,
    mode: RunMode,
    dir: Seq<char>,
    deps: Seq<(Seq<char>, Seq<char>)>,
    visited: Seq<Seq<char>>,
    fuel: nat,
) -> SessionV
    decreases fuel, 1int, deps.len(),
{
    if deps.len() == 0 {
        s
    } else {
        let child = spec_join(dir, deps[0].1);
        let s1 = if visited.contains(child) {
            spec_report(s, child, ReportKind::CycleRefused)
        } else {
            match spec_lookup(s.tree, child) {
                Some(EntryV::Dir) => spec_walk_node(
                    s,
                    op,
                    mode,
                    child,
                    spec_join(child, spec_conf_name()),
                    visited.push(child),
                    fuel,
                ),
                _ => spec_report(s, child, ReportKind::Failed(ErrorKind::DependencyUnreachable)),
            }
        };
        spec_walk_deps(s1, op, mode, dir, deps.drop_first(), visited, fuel)
    }
}

/// A whole run: the configuration path is resolved against the start
/// directory, which alone is on the recursion path at first.
pub open spec fn spec_run(
    s: SessionV,
    op: Operation,
    mode: RunMode,
    config: Seq<char>,
    start_dir: Seq<char>,
) -> SessionV {
    spec_walk_node(
        s,
        op,
        mode,
        start_dir,
        spec_join(start_dir, config),
        seq![start_dir],
        spec_fuel(s.tree.len()),
    )
}

/// Whether a path is on the current recursion path.
fn contains_path(visited: &Vec<String>, p: &String) -> (r: bool)
    ensures
        r == visited.deep_view().contains(p@),
{
    let n = visited.len();
    let mut i: usize = 0;
    while i < n
        invariant
            n == visited.len(),
            i <= n,
            forall|j: int| 0 <= j < i ==> visited.deep_view()[j] != p@,
        decreases n - i,
    {
        if visited[i] == *p {
            proof {
                assert(visited.deep_view()[i as int] == p@);
            }
            return true;
        }
        i += 1;
    }
    proof {
        assert forall|j: int| 0 <= j < visited.deep_view().len() implies visited.deep_view()[j]
            != p@ by {}
    }
    false
}

fn walk_links(
    sess: &mut Session,
    op: Operation,
    mode: RunMode,
    dir: &String,
    links: &Vec<(String, String)>,
    i: usize,
)
    requires
        i <= links@.len(),
    ensures
        final(sess)@ == spec_walk_links(
            old(sess)@,
            op,
            mode,
            dir@,
            links.deep_view().skip(i as int),
        ),
    decreases links@.len() - i,
{
    if i < links.len() {
        proof {
            assert(links.deep_view().skip(i as int)[0] == (links@[i as int].0@, links@[
                i as int].1@));
            assert(links.deep_view().skip(i as int).drop_first() =~= links.deep_view().skip(
                i as int + 1,
            ));
        }
        match op {
            Operation::Deploy => deploy_link(sess, mode, dir, &links[i].0, &links[i].1),
            Operation::Undeploy => undeploy_link(sess, mode, &links[i].1),
        }
        walk_links(sess, op, mode, dir, links, i + 1);
    } else {
        proof {
            assert(links.deep_view().skip(i as int) =~= Seq::<(Seq<char>, Seq<char>)>::empty());
        }
    }
}

fn walk_deps(
    sess: &mut Session,
    op: Operation,
    mode: RunMode,
    dir: &String,
    deps: &Vec<(String, String)>,
    i: usize,
    visited: &mut Vec<String>,
    fuel: usize,
)
    requires
        i <= deps@.len(),
    ensures
        final(sess)@ == spec_walk_deps(
            old(sess)@,
            op,
            mode,
            dir@,
            deps.deep_view().skip(i as int),
            old(visited).deep_view(),
            fuel as nat,
        ),
        final(visited)@ == old(visited)@,
    decreases fuel, 1int, deps@.len() - i,
{
    if i < deps.len() {
        proof {
            assert(deps.deep_view().skip(i as int)[0] == (deps@[i as int].0@, deps@[i as int].1@));
            assert(deps.deep_view().skip(i as int).drop_first() =~= deps.deep_view().skip(
                i as int + 1,
            ));
        }
        let child = join_path(dir.as_str(), deps[i].1.as_str());
        if contains_path(visited, &child) {
            sess.report(child, ReportKind::CycleRefused);
        } else {
            let is_dir = {
                match sess.tree.lookup_entry(&child) {
                    Some(Entry::Dir) => true,
                    _ => false,
                }
            };
            if is_dir {
                let conf = join_path(child.as_str(), "xdotter.toml");
                let child_dir = child.clone();
                let ghost before = visited.deep_view();
                visited.push(child);
                proof {
                    assert(visited.deep_view() =~= before.push(child_dir@));
                }
                walk_node(sess, op, mode, &child_dir, &conf, visited, fuel);
                let _popped = visited.pop();
                proof {
                    assert(visited@ =~= old(visited)@);
                    assert(visited.deep_view() =~= old(visited).deep_view());
                }
            } else {
                sess.report(child, ReportKind::Failed(ErrorKind::DependencyUnreachable));
            }
        }
        walk_deps(sess, op, mode, dir, deps, i + 1, visited, fuel);
    } else {
        proof {
            assert(deps.deep_view().skip(i as int) =~= Seq::<(Seq<char>, Seq<char>)>::empty());
        }
    }
}

fn walk_node(
    sess: &mut Session,
    op: Operation,
    mode: RunMode,
    dir: &String,
    conf: &String,
    visited: &mut Vec<String>,
    fuel: usize,
)
    ensures
        final(sess)@ == spec_walk_node(
            old(sess)@,
            op,
            mode,
            dir@,
            conf@,
            old(visited).deep_view(),
            fuel as nat,
        ),
        final(visited)@ == old(visited)@,
    decreases fuel, 0int, 0int,
{
    if fuel == 0 {
        sess.report(conf.clone(), ReportKind::DepthExceeded);
        return ;
    }
    sess.report(conf.clone(), ReportKind::Visit);
    let text = {
        match sess.tree.lookup_entry(conf) {
            Some(Entry::File(t)) => Some(t.clone()),
            _ => None,
        }
    };
    let text = match text {
        Some(t) => t,
        None => {
            sess.report(conf.clone(), ReportKind::Failed(ErrorKind::ConfigUnreadable));
            return ;
        },
    };
    let cfg = match parse_config(text.as_str()) {
        Ok(c) => c,
        Err(_) => {
            sess.report(conf.clone(), ReportKind::Failed(ErrorKind::ConfigMalformed));
            return ;
        },
    };
    proof {
        assert(cfg@.links.skip(0) =~= cfg@.links);
        assert(cfg@.dependencies.skip(0) =~= cfg@.dependencies);
    }
    walk_links(sess, op, mode, dir, &cfg.links, 0);
    walk_deps(sess, op, mode, dir, &cfg.dependencies, 0, visited, fuel - 1);
}

/// Runs one whole operation over the session's tree.
fn run_walk(sess: &mut Session, op: Operation, mode: RunMode, config: &String, start_dir: &String)
    ensures
        final(sess)@ == spec_run(old(sess)@, op, mode, config@, start_dir@),
{
    let conf = join_path(start_dir.as_str(), config.as_str());
    let mut visited: Vec<String> = Vec::new();
    visited.push(start_dir.clone());
    proof {
        assert(visited.deep_view() =~= seq![start_dir@]);
    }
    let n = sess.tree.len();
    let fuel = if n < usize::MAX {
        n + 1
    } else {
        n
    };
    walk_node(sess, op, mode, start_dir, &conf, &mut visited, fuel);
}

/// Deploys the configuration tree: walks every reachable node and creates
/// its declared links under the mode the arguments select.  Per-entry
/// failures are reported and never abort the run.  A dry run leaves the tree
/// untouched, and without force or interactive no occupied path is ever
/// mutated.
pub fn deploy(args: &RunArgs, sess: &mut Session, start_dir: &String)
    ensures
        final(sess)@ == spec_run(
            old(sess)@,
            Operation::Deploy,
            spec_run_mode(args.dry_run, args.interactive, args.force),
            args.config@,
            start_dir@,
        ),
        args.dry_run ==> final(sess)@.tree == old(sess)@.tree,
        !args.force && !args.interactive ==> forall|q: Seq<char>|
            #[trigger] spec_lookup(old(sess)@.tree, q) is Some ==> spec_lookup(
                final(sess)@.tree,
                q,
            ) == spec_lookup(old(sess)@.tree, q),
{
    let mode = init_run_mode(args);
    run_walk(sess, Operation::Deploy, mode, &args.config, start_dir);
    proof {
        if mode.dry_run {
            crate::laws::lemma_dry_run_pure(
                old(sess)@,
                Operation::Deploy,
                mode,
                args.config@,
                start_dir@,
            );
        }
        if !mode.force && !mode.interactive {
            assert forall|q: Seq<char>| #[trigger] spec_lookup(old(sess)@.tree, q) is Some
                implies spec_lookup(sess@.tree, q) == spec_lookup(old(sess)@.tree, q) by {
                crate::laws::lemma_default_run_preserves_occupants(
                    old(sess)@,
                    mode,
                    args.config@,
                    start_dir@,
                    q,
                );
            }
        }
    }
}

/// Undeploys the configuration tree: walks every reachable node and removes
/// those of its declared links that are symlinks, never anything else — any
/// path that holds a regular file, a directory or anything else keeps its
/// entry, whatever the mode.
pub fn undeploy(args: &RunArgs, sess: &mut Session, start_dir: &String)
    ensures
        final(sess)@ == spec_run(
            old(sess)@,
            Operation::Undeploy,
            spec_run_mode(args.dry_run, args.interactive, args.force),
            args.config@,
            start_dir@,
        ),
        args.dry_run ==> final(sess)@.tree == old(sess)@.tree,
        forall|q: Seq<char>|
            (match #[trigger] spec_lookup(old(sess)@.tree, q) {
                Some(e) => !(e is Symlink),
                None => false,
            }) ==> spec_lookup(final(sess)@.tree, q) == spec_lookup(old(sess)@.tree, q),
{
    let mode = init_run_mode(args);
    run_walk(sess, Operation::Undeploy, mode, &args.config, start_dir);
    proof {
        if mode.dry_run {
            crate::laws::lemma_dry_run_pure(
                old(sess)@,
                Operation::Undeploy,
                mode,
                args.config@,
                start_dir@,
            );
        }
        assert forall|q: Seq<char>|
            (match #[trigger] spec_lookup(old(sess)@.tree, q) {
                Some(e) => !(e is Symlink),
                None => false,
            }) implies spec_lookup(sess@.tree, q) == spec_lookup(old(sess)@.tree, q) by {
            crate::laws::lemma_undeploy_run_removes_only_symlinks(
                old(sess)@,
                mode,
                args.config@,
                start_dir@,
                q,
            );
        }
    }
}

} // verus!
