use xdotter::engine::{deploy, undeploy};
use xdotter::log::LogLevel;
use xdotter::report::{ErrorKind, ReportKind};
use xdotter::run_mode::RunArgs;
use xdotter::session::Session;
use xdotter::tree::{Entry, Tree};

fn args(dry_run: bool, interactive: bool, force: bool) -> RunArgs {
    RunArgs {
        config: "xdotter.toml".to_string(),
        verbose: false,
        dry_run,
        interactive,
        force,
        quiet: false,
    }
}

fn nested_tree() -> Tree {
    let mut t = Tree::new();
    t.put("/d".to_string(), Entry::Dir);
    t.put("/d/a.txt".to_string(), Entry::File("a".to_string()));
    t.put(
        "/d/xdotter.toml".to_string(),
        Entry::File(
            "[links]\n\"a.txt\" = \"~/.a\"\n[dependencies]\nsub = \"child\"\nbad = \"hole\"\n"
                .to_string(),
        ),
    );
    t.put("/d/child".to_string(), Entry::Dir);
    t.put("/d/child/b.txt".to_string(), Entry::File("b".to_string()));
    t.put(
        "/d/child/xdotter.toml".to_string(),
        Entry::File("[links]\n\"b.txt\" = \"~/.b\"\n".to_string()),
    );
    t
}

fn visits(sess: &Session) -> Vec<String> {
    sess.reports
        .iter()
        .filter(|r| r.kind == ReportKind::Visit)
        .map(|r| r.path.clone())
        .collect()
}

#[test]
fn dry_run_visits_the_same_nodes_as_a_real_default_run() {
    let t = nested_tree();
    let mut dry = Session::new(t.clone(), Some("/home/u".to_string()), vec![]);
    deploy(&args(true, false, false), &mut dry, &"/d".to_string());
    let mut wet = Session::new(t, Some("/home/u".to_string()), vec![]);
    deploy(&args(false, false, false), &mut wet, &"/d".to_string());
    assert_eq!(visits(&dry), visits(&wet));
    assert_eq!(
        visits(&dry),
        vec![
            "/d/xdotter.toml".to_string(),
            "/d/child/xdotter.toml".to_string(),
        ]
    );
}

#[test]
fn exhausted_answer_tape_reads_a_no() {
    let mut t = nested_tree();
    t.put("/home/u/.a".to_string(), Entry::File("old".to_string()));
    let mut sess = Session::new(t, Some("/home/u".to_string()), vec![]);
    deploy(&args(false, true, false), &mut sess, &"/d".to_string());
    assert!(sess
        .reports
        .iter()
        .any(|r| r.kind == ReportKind::SkippedDeclined));
    assert!(sess
        .tree
        .entries
        .iter()
        .any(|(p, e)| p == "/home/u/.a" && *e == Entry::File("old".to_string())));
}

#[test]
fn two_links_to_the_same_location_conflict_within_one_run() {
    let mut t = Tree::new();
    t.put("/d".to_string(), Entry::Dir);
    t.put("/d/a.txt".to_string(), Entry::File("a".to_string()));
    t.put("/d/b.txt".to_string(), Entry::File("b".to_string()));
    t.put(
        "/d/xdotter.toml".to_string(),
        Entry::File("[links]\n\"a.txt\" = \"~/.x\"\n\"b.txt\" = \"~/.x\"\n".to_string()),
    );
    let mut sess = Session::new(t, Some("/home/u".to_string()), vec![]);
    deploy(&args(false, false, false), &mut sess, &"/d".to_string());
    // one entry wins the location, the other is a conflict
    assert!(sess.reports.iter().any(|r| r.kind == ReportKind::Created));
    assert!(sess
        .reports
        .iter()
        .any(|r| r.kind == ReportKind::Failed(ErrorKind::LinkConflict)));
}

#[test]
fn undeploy_removes_a_dangling_symlink() {
    let mut t = Tree::new();
    t.put("/d".to_string(), Entry::Dir);
    t.put(
        "/d/xdotter.toml".to_string(),
        Entry::File("[links]\n\"gone.txt\" = \"~/.g\"\n".to_string()),
    );
    t.put(
        "/home/u/.g".to_string(),
        Entry::Symlink("/nowhere".to_string()),
    );
    let mut sess = Session::new(t, Some("/home/u".to_string()), vec![]);
    undeploy(&args(false, false, false), &mut sess, &"/d".to_string());
    assert!(!sess.tree.entries.iter().any(|(p, _)| p == "/home/u/.g"));
}

#[test]
fn interactive_undeploy_asks_before_removing() {
    let mut t = Tree::new();
    t.put("/d".to_string(), Entry::Dir);
    t.put(
        "/d/xdotter.toml".to_string(),
        Entry::File("[links]\n\"x\" = \"~/.g\"\n".to_string()),
    );
    t.put(
        "/home/u/.g".to_string(),
        Entry::Symlink("/d/x".to_string()),
    );
    let mut keep = Session::new(t.clone(), Some("/home/u".to_string()), vec![false]);
    undeploy(&args(false, true, false), &mut keep, &"/d".to_string());
    assert!(keep.tree.entries.iter().any(|(p, _)| p == "/home/u/.g"));

    let mut gone = Session::new(t, Some("/home/u".to_string()), vec![true]);
    undeploy(&args(false, true, false), &mut gone, &"/d".to_string());
    assert!(!gone.tree.entries.iter().any(|(p, _)| p == "/home/u/.g"));
}

#[test]
fn failures_are_reported_at_error_level() {
    let mut t = Tree::new();
    t.put("/d".to_string(), Entry::Dir);
    let mut sess = Session::new(t, Some("/home/u".to_string()), vec![]);
    deploy(&args(false, false, false), &mut sess, &"/d".to_string());
    let mut saw_failure = false;
    for r in &sess.reports {
        match r.kind {
            ReportKind::Failed(_) => {
                saw_failure = true;
                assert_eq!(r.level(), LogLevel::Error);
            }
            _ => assert_eq!(r.level(), LogLevel::Info),
        }
    }
    assert!(saw_failure);
}

#[test]
fn depth_guard_never_fires_on_an_acyclic_tree() {
    let mut sess = Session::new(nested_tree(), Some("/home/u".to_string()), vec![]);
    deploy(&args(false, false, false), &mut sess, &"/d".to_string());
    assert!(!sess
        .reports
        .iter()
        .any(|r| r.kind == ReportKind::DepthExceeded));
}
