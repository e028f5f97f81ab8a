use xdotter::engine::{deploy, undeploy};
use xdotter::report::{ErrorKind, ReportKind};
use xdotter::run_mode::RunArgs;
use xdotter::session::Session;
use xdotter::tree::{Entry, Tree};

fn args() -> RunArgs {
    RunArgs {
        config: "xdotter.toml".to_string(),
        verbose: false,
        dry_run: false,
        interactive: false,
        force: false,
        quiet: false,
    }
}

fn entry_at(sess: &Session, p: &str) -> Option<Entry> {
    for (q, e) in sess.tree.entries.iter() {
        if q == p {
            return Some(e.clone());
        }
    }
    None
}

#[test]
fn nested_dependency_is_deployed_too() {
    let mut t = Tree::new();
    t.put("/d".to_string(), Entry::Dir);
    t.put(
        "/d/xdotter.toml".to_string(),
        Entry::File("[dependencies]\nsub = \"child\"\n".to_string()),
    );
    t.put("/d/child".to_string(), Entry::Dir);
    t.put("/d/child/b.txt".to_string(), Entry::File("b".to_string()));
    t.put(
        "/d/child/xdotter.toml".to_string(),
        Entry::File("[links]\n\"b.txt\" = \"~/.b\"\n".to_string()),
    );
    let mut sess = Session::new(t, Some("/home/u".to_string()), vec![]);
    deploy(&args(), &mut sess, &"/d".to_string());
    assert_eq!(
        entry_at(&sess, "/home/u/.b"),
        Some(Entry::Symlink("/d/child/b.txt".to_string()))
    );
}

#[test]
fn missing_dependency_config_is_reported_and_siblings_continue() {
    // {dependencies: {"sub": "child"}} where child/xdotter.toml is missing:
    // the child directory is entered, its unreadable configuration reported,
    // and the parent's remaining entries still processed.
    let mut t = Tree::new();
    t.put("/d".to_string(), Entry::Dir);
    t.put("/d/a.txt".to_string(), Entry::File("a".to_string()));
    t.put(
        "/d/xdotter.toml".to_string(),
        Entry::File("[links]\n\"a.txt\" = \"~/.a\"\n[dependencies]\nsub = \"child\"\nzz = \"other\"\n".to_string()),
    );
    t.put("/d/child".to_string(), Entry::Dir);
    t.put("/d/other".to_string(), Entry::Dir);
    t.put("/d/other/c.txt".to_string(), Entry::File("c".to_string()));
    t.put(
        "/d/other/xdotter.toml".to_string(),
        Entry::File("[links]\n\"c.txt\" = \"~/.c\"\n".to_string()),
    );
    let mut sess = Session::new(t, Some("/home/u".to_string()), vec![]);
    deploy(&args(), &mut sess, &"/d".to_string());
    let failed_child = sess.reports.iter().any(|r| {
        r.path == "/d/child/xdotter.toml"
            && r.kind == ReportKind::Failed(ErrorKind::ConfigUnreadable)
    });
    assert!(failed_child);
    // the sibling link and the sibling dependency were still deployed
    assert!(entry_at(&sess, "/home/u/.a").is_some());
    assert!(entry_at(&sess, "/home/u/.c").is_some());
}

#[test]
fn missing_dependency_directory_is_unreachable() {
    let mut t = Tree::new();
    t.put("/d".to_string(), Entry::Dir);
    t.put(
        "/d/xdotter.toml".to_string(),
        Entry::File("[dependencies]\nsub = \"gone\"\n".to_string()),
    );
    let mut sess = Session::new(t, Some("/home/u".to_string()), vec![]);
    deploy(&args(), &mut sess, &"/d".to_string());
    let unreachable = sess.reports.iter().any(|r| {
        r.path == "/d/gone" && r.kind == ReportKind::Failed(ErrorKind::DependencyUnreachable)
    });
    assert!(unreachable);
}

#[test]
fn dependency_cycle_is_refused() {
    // /d depends on /d/sub, whose node declares /d again by absolute path
    let mut t = Tree::new();
    t.put("/d".to_string(), Entry::Dir);
    t.put(
        "/d/xdotter.toml".to_string(),
        Entry::File("[dependencies]\nsub = \"sub\"\n".to_string()),
    );
    t.put("/d/sub".to_string(), Entry::Dir);
    t.put(
        "/d/sub/xdotter.toml".to_string(),
        Entry::File("[dependencies]\nback = \"/d\"\n".to_string()),
    );
    let mut sess = Session::new(t, Some("/home/u".to_string()), vec![]);
    deploy(&args(), &mut sess, &"/d".to_string());
    let refused = sess
        .reports
        .iter()
        .any(|r| r.path == "/d" && r.kind == ReportKind::CycleRefused);
    assert!(refused);
}

#[test]
fn malformed_root_configuration_is_reported_before_any_mutation() {
    let mut t = Tree::new();
    t.put("/d".to_string(), Entry::Dir);
    t.put(
        "/d/xdotter.toml".to_string(),
        Entry::File("links = 3\n".to_string()),
    );
    let before = t.entries.clone();
    let mut sess = Session::new(t, Some("/home/u".to_string()), vec![]);
    deploy(&args(), &mut sess, &"/d".to_string());
    assert_eq!(sess.tree.entries, before);
    let malformed = sess.reports.iter().any(|r| {
        r.path == "/d/xdotter.toml" && r.kind == ReportKind::Failed(ErrorKind::ConfigMalformed)
    });
    assert!(malformed);
}

#[test]
fn unreadable_root_configuration_is_reported() {
    let mut t = Tree::new();
    t.put("/d".to_string(), Entry::Dir);
    let mut sess = Session::new(t, Some("/home/u".to_string()), vec![]);
    undeploy(&args(), &mut sess, &"/d".to_string());
    let unreadable = sess.reports.iter().any(|r| {
        r.path == "/d/xdotter.toml" && r.kind == ReportKind::Failed(ErrorKind::ConfigUnreadable)
    });
    assert!(unreadable);
}

#[test]
fn absolute_configuration_path_is_taken_as_it_is() {
    let mut t = Tree::new();
    t.put("/d".to_string(), Entry::Dir);
    t.put("/d/a.txt".to_string(), Entry::File("a".to_string()));
    t.put(
        "/etc/my.toml".to_string(),
        Entry::File("[links]\n\"a.txt\" = \"~/.a\"\n".to_string()),
    );
    let mut sess = Session::new(t, Some("/home/u".to_string()), vec![]);
    let a = RunArgs { config: "/etc/my.toml".to_string(), ..args() };
    deploy(&a, &mut sess, &"/d".to_string());
    assert_eq!(
        entry_at(&sess, "/home/u/.a"),
        Some(Entry::Symlink("/d/a.txt".to_string()))
    );
}
