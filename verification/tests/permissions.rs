use agent_runner::config::FilesystemPermission;
use agent_runner::permissions::PermissionEvaluator;

fn rule(ops: &[&str], paths: &[&str], mode: &str) -> FilesystemPermission {
    FilesystemPermission {
        operations: ops.iter().map(|s| s.to_string()).collect(),
        paths: paths.iter().map(|s| s.to_string()).collect(),
        mode: mode.to_string(),
    }
}

#[test]
fn no_rules_denies_everything() {
    let ev = PermissionEvaluator::new(vec![]);
    assert!(!ev.check("read", "./a.txt"));
    assert!(!ev.check("write", ""));
}

#[test]
fn prefix_pattern_covers_directory_and_below() {
    let ev = PermissionEvaluator::new(vec![rule(&["read"], &["./src/*"], "allow")]);
    assert!(ev.check("read", "./src"));
    assert!(ev.check("read", "./src/main.rs"));
    assert!(ev.check("read", "./src/a/b.rs"));
    assert!(!ev.check("read", "./srcx/main.rs"));
    assert!(!ev.check("read", "./sr"));
    assert!(!ev.check("write", "./src/main.rs"));
}

#[test]
fn exact_pattern_matches_only_itself() {
    let ev = PermissionEvaluator::new(vec![rule(&["write"], &["./notes.md"], "allow")]);
    assert!(ev.check("write", "./notes.md"));
    assert!(!ev.check("write", "./notes.md.bak"));
    assert!(!ev.check("write", "./"));
}

#[test]
fn first_applicable_rule_decides() {
    let ev = PermissionEvaluator::new(vec![
        rule(&["write"], &["./secrets/*"], "deny"),
        rule(&["write"], &["./*"], "allow"),
    ]);
    assert!(!ev.check("write", "./secrets/key"));
    assert!(ev.check("write", "./src/lib.rs"));
    let ev2 = PermissionEvaluator::new(vec![
        rule(&["write"], &["./*"], "allow"),
        rule(&["write"], &["./secrets/*"], "deny"),
    ]);
    assert!(ev2.check("write", "./secrets/key"));
}

#[test]
fn unknown_mode_denies() {
    let ev = PermissionEvaluator::new(vec![rule(&["read"], &["./*"], "Allow")]);
    assert!(!ev.check("read", "./x"));
}

#[test]
fn readme_permission_example() {
    let ev = PermissionEvaluator::new(vec![
        rule(&["read"], &["./*"], "allow"),
        rule(&["write"], &["./src/*"], "allow"),
        rule(&["write"], &["./secrets/*"], "deny"),
    ]);
    assert!(ev.check("read", "./secrets/key"));
    assert!(ev.check("write", "./src/x.rs"));
    assert!(!ev.check("write", "./secrets/key"));
    assert!(!ev.check("write", "./README.md"));
}
