use reapk::paths::workspace_candidate;
use reapk::resolver::{candidate_names, executable_candidates, first_found, resolution_probes};
use reapk::scope_guard::ScopeGuard;
use std::cell::Cell;

#[test]
fn bare_name_gets_the_executable_suffix() {
    assert_eq!(candidate_names("java", false), vec!["java", "java.exe"]);
    assert_eq!(candidate_names("java.sh", true), vec!["java.sh"]);
    assert_eq!(executable_candidates("java"), vec!["java", "java.exe"]);
    assert_eq!(executable_candidates("java.exe"), vec!["java.exe"]);
    assert_eq!(executable_candidates(".java"), vec![".java", ".java.exe"]);
    assert_eq!(executable_candidates("java."), vec!["java."]);
}

#[test]
fn probes_go_directory_by_directory() {
    let cands = vec!["java".to_string(), "java.exe".to_string()];
    let dirs = vec!["/usr/bin".to_string(), "/opt/jdk/bin/".to_string()];
    let probes = resolution_probes("java", &cands, &dirs);
    assert_eq!(
        probes,
        vec!["java", "/usr/bin/java", "/usr/bin/java.exe", "/opt/jdk/bin/java", "/opt/jdk/bin/java.exe"]
    );
    assert_eq!(resolution_probes("java", &cands, &Vec::new()), vec!["java"]);
}

#[test]
fn first_found_probe_wins() {
    assert_eq!(first_found(&vec![false, true, true]), Some(1));
    assert_eq!(first_found(&vec![true]), Some(0));
}

#[test]
fn nothing_found_is_not_found() {
    assert_eq!(first_found(&vec![false, false, false]), None);
    assert_eq!(first_found(&Vec::new()), None);
}

#[test]
fn workspace_candidates_are_fresh_uuid_directories() {
    let a = workspace_candidate("/tmp");
    let b = workspace_candidate("/tmp");
    assert_ne!(a, b);
    assert!(a.starts_with("/tmp/"));
    let id = &a["/tmp/".len()..];
    assert_eq!(id.len(), 36);
    assert!(id.chars().all(|c| c.is_ascii_hexdigit() && !c.is_ascii_uppercase() || c == '-'));
    let chars: Vec<char> = id.chars().collect();
    for k in [8, 13, 18, 23] {
        assert_eq!(chars[k], '-');
    }
    assert_eq!(chars[14], '7');
    assert!(matches!(chars[19], '8' | '9' | 'a' | 'b'));
}

#[test]
fn guard_runs_its_cleanup_once() {
    let count = Cell::new(0);
    let mut g = ScopeGuard::new(|| count.set(count.get() + 1));
    assert_eq!(count.get(), 0);
    g.fire();
    g.fire();
    assert_eq!(count.get(), 1);
}
