use xdotter::engine::{deploy, undeploy};
use xdotter::report::{ErrorKind, Report, ReportKind};
use xdotter::run_mode::RunArgs;
use xdotter::session::Session;
use xdotter::tree::{Entry, Tree};

fn args(dry_run: bool, interactive: bool, force: bool) -> RunArgs {
    RunArgs {
        config: "xdotter.toml".to_string(),
        verbose: false,
        dry_run,
        interactive,
        force,
        quiet: false,
    }
}

fn base_tree(extra: Vec<(&str, Entry)>) -> Tree {
    let mut t = Tree::new();
    t.put("/d".to_string(), Entry::Dir);
    t.put("/d/a.txt".to_string(), Entry::File("hello".to_string()));
    t.put(
        "/d/xdotter.toml".to_string(),
        Entry::File("[links]\n\"a.txt\" = \"~/.a\"\n".to_string()),
    );
    for (p, e) in extra {
        t.put(p.to_string(), e);
    }
    t
}

fn entry_at(sess: &Session, p: &str) -> Option<Entry> {
    for (q, e) in sess.tree.entries.iter() {
        if q == p {
            return Some(e.clone());
        }
    }
    None
}

fn kinds(reports: &[Report]) -> Vec<ReportKind> {
    reports.iter().map(|r| r.kind).collect()
}

#[test]
fn deploy_creates_link_at_absent_location() {
    // {links: {"a.txt": "~/.a"}}, home /home/u, target exists, link absent
    let mut sess = Session::new(base_tree(vec![]), Some("/home/u".to_string()), vec![]);
    deploy(&args(false, false, false), &mut sess, &"/d".to_string());
    assert_eq!(
        entry_at(&sess, "/home/u/.a"),
        Some(Entry::Symlink("/d/a.txt".to_string()))
    );
    assert!(kinds(&sess.reports).contains(&ReportKind::Created));
}

#[test]
fn deploy_is_noop_when_already_linked() {
    // the link location already holds a symlink to the canonical target
    let t = base_tree(vec![("/home/u/.a", Entry::Symlink("/d/a.txt".to_string()))]);
    let before = t.entries.clone();
    let mut sess = Session::new(t, Some("/home/u".to_string()), vec![]);
    deploy(&args(false, false, false), &mut sess, &"/d".to_string());
    assert_eq!(sess.tree.entries, before);
    assert!(kinds(&sess.reports).contains(&ReportKind::AlreadyLinked));
    for k in kinds(&sess.reports) {
        assert!(!matches!(
            k,
            ReportKind::Created | ReportKind::Replaced | ReportKind::Removed
        ));
    }
}

#[test]
fn deploy_twice_mutates_nothing_on_second_run() {
    let mut sess = Session::new(base_tree(vec![]), Some("/home/u".to_string()), vec![]);
    let a = args(false, false, false);
    deploy(&a, &mut sess, &"/d".to_string());
    let after_first = sess.tree.entries.clone();
    let reports_first = sess.reports.len();
    deploy(&a, &mut sess, &"/d".to_string());
    assert_eq!(sess.tree.entries, after_first);
    for r in &sess.reports[reports_first..] {
        assert!(!matches!(
            r.kind,
            ReportKind::Created | ReportKind::Replaced | ReportKind::Removed
        ));
    }
}

#[test]
fn deploy_then_undeploy_restores_clean_tree() {
    let t = base_tree(vec![]);
    let before = t.entries.clone();
    let mut sess = Session::new(t, Some("/home/u".to_string()), vec![]);
    let a = args(false, false, false);
    deploy(&a, &mut sess, &"/d".to_string());
    assert!(entry_at(&sess, "/home/u/.a").is_some());
    undeploy(&a, &mut sess, &"/d".to_string());
    assert_eq!(sess.tree.entries, before);
    assert!(kinds(&sess.reports).contains(&ReportKind::Removed));
}

#[test]
fn undeploy_never_removes_a_regular_file() {
    let t = base_tree(vec![("/home/u/.a", Entry::File("mine".to_string()))]);
    let before = t.entries.clone();
    let mut sess = Session::new(t, Some("/home/u".to_string()), vec![]);
    undeploy(&args(false, false, false), &mut sess, &"/d".to_string());
    assert_eq!(sess.tree.entries, before);
    assert!(kinds(&sess.reports).contains(&ReportKind::SkippedNotSymlink));
}

#[test]
fn undeploy_reports_absent_location() {
    let mut sess = Session::new(base_tree(vec![]), Some("/home/u".to_string()), vec![]);
    undeploy(&args(false, false, false), &mut sess, &"/d".to_string());
    assert!(kinds(&sess.reports).contains(&ReportKind::AlreadyAbsent));
}

#[test]
fn dry_run_deploy_mutates_nothing() {
    let t = base_tree(vec![]);
    let before = t.entries.clone();
    let mut sess = Session::new(t, Some("/home/u".to_string()), vec![]);
    deploy(&args(true, false, false), &mut sess, &"/d".to_string());
    assert_eq!(sess.tree.entries, before);
    // the decision is still reported: this link would be created
    assert!(kinds(&sess.reports).contains(&ReportKind::Created));
}

#[test]
fn dry_run_undeploy_mutates_nothing() {
    let t = base_tree(vec![("/home/u/.a", Entry::Symlink("/d/a.txt".to_string()))]);
    let before = t.entries.clone();
    let mut sess = Session::new(t, Some("/home/u".to_string()), vec![]);
    undeploy(&args(true, false, false), &mut sess, &"/d".to_string());
    assert_eq!(sess.tree.entries, before);
    assert!(kinds(&sess.reports).contains(&ReportKind::Removed));
}

#[test]
fn force_replaces_a_file_occupant() {
    let t = base_tree(vec![("/home/u/.a", Entry::File("old".to_string()))]);
    let mut sess = Session::new(t, Some("/home/u".to_string()), vec![]);
    deploy(&args(false, false, true), &mut sess, &"/d".to_string());
    assert_eq!(
        entry_at(&sess, "/home/u/.a"),
        Some(Entry::Symlink("/d/a.txt".to_string()))
    );
    assert!(kinds(&sess.reports).contains(&ReportKind::Replaced));
}

#[test]
fn force_replaces_a_wrong_symlink() {
    let t = base_tree(vec![("/home/u/.a", Entry::Symlink("/elsewhere".to_string()))]);
    let mut sess = Session::new(t, Some("/home/u".to_string()), vec![]);
    deploy(&args(false, false, true), &mut sess, &"/d".to_string());
    assert_eq!(
        entry_at(&sess, "/home/u/.a"),
        Some(Entry::Symlink("/d/a.txt".to_string()))
    );
}

#[test]
fn force_replaces_a_directory_and_its_contents() {
    let t = base_tree(vec![
        ("/home/u/.a", Entry::Dir),
        ("/home/u/.a/inner", Entry::File("x".to_string())),
    ]);
    let mut sess = Session::new(t, Some("/home/u".to_string()), vec![]);
    deploy(&args(false, false, true), &mut sess, &"/d".to_string());
    assert_eq!(
        entry_at(&sess, "/home/u/.a"),
        Some(Entry::Symlink("/d/a.txt".to_string()))
    );
    assert_eq!(entry_at(&sess, "/home/u/.a/inner"), None);
}

#[test]
fn default_mode_reports_conflict_and_leaves_occupant() {
    let t = base_tree(vec![("/home/u/.a", Entry::File("old".to_string()))]);
    let before = t.entries.clone();
    let mut sess = Session::new(t, Some("/home/u".to_string()), vec![]);
    deploy(&args(false, false, false), &mut sess, &"/d".to_string());
    assert_eq!(sess.tree.entries, before);
    assert!(kinds(&sess.reports).contains(&ReportKind::Failed(ErrorKind::LinkConflict)));
}

#[test]
fn occupant_of_other_kind_is_always_skipped() {
    let t = base_tree(vec![("/home/u/.a", Entry::Other)]);
    let before = t.entries.clone();
    let mut sess = Session::new(t, Some("/home/u".to_string()), vec![]);
    deploy(&args(false, false, true), &mut sess, &"/d".to_string());
    assert_eq!(sess.tree.entries, before);
    assert!(kinds(&sess.reports).contains(&ReportKind::SkippedUnremovable));
}

#[test]
fn interactive_yes_replaces_and_no_skips() {
    let t = base_tree(vec![("/home/u/.a", Entry::File("old".to_string()))]);
    let mut sess = Session::new(t.clone(), Some("/home/u".to_string()), vec![true]);
    deploy(&args(false, true, false), &mut sess, &"/d".to_string());
    assert_eq!(
        entry_at(&sess, "/home/u/.a"),
        Some(Entry::Symlink("/d/a.txt".to_string()))
    );

    let mut sess2 = Session::new(t, Some("/home/u".to_string()), vec![false]);
    deploy(&args(false, true, false), &mut sess2, &"/d".to_string());
    assert_eq!(
        entry_at(&sess2, "/home/u/.a"),
        Some(Entry::File("old".to_string()))
    );
    assert!(kinds(&sess2.reports).contains(&ReportKind::SkippedDeclined));
}

#[test]
fn missing_target_is_reported_and_harmless() {
    let mut t = Tree::new();
    t.put("/d".to_string(), Entry::Dir);
    t.put(
        "/d/xdotter.toml".to_string(),
        Entry::File("[links]\n\"gone.txt\" = \"~/.g\"\n".to_string()),
    );
    let before = t.entries.clone();
    let mut sess = Session::new(t, Some("/home/u".to_string()), vec![]);
    deploy(&args(false, false, false), &mut sess, &"/d".to_string());
    assert_eq!(sess.tree.entries, before);
    assert!(kinds(&sess.reports).contains(&ReportKind::Failed(ErrorKind::TargetNotFound)));
}

#[test]
fn missing_home_is_reported() {
    let mut sess = Session::new(base_tree(vec![]), None, vec![]);
    deploy(&args(false, false, false), &mut sess, &"/d".to_string());
    assert!(kinds(&sess.reports).contains(&ReportKind::Failed(ErrorKind::HomeDirUnavailable)));
}
