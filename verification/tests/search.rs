use codex_usage_proxy::search::{collect_jsonl_files, DirEntry};

fn dir(path: &'static str) -> DirEntry<&'static str> {
    DirEntry { path, is_dir: true, extension: None }
}

fn file(path: &'static str, extension: Option<&str>) -> DirEntry<&'static str> {
    DirEntry { path, is_dir: false, extension: extension.map(|e| e.to_string()) }
}

#[test]
fn directories_and_logs_are_told_apart() {
    let mut to_visit = vec!["waiting"];
    let mut found = vec!["before"];
    let entries = vec![
        file("a.jsonl", Some("jsonl")),
        dir("d1"),
        file("b.json", Some("json")),
        file("c", None),
        file("d.JSONL", Some("JSONL")),
        dir("d2.jsonl"),
        file("e.jsonl", Some("jsonl")),
    ];
    collect_jsonl_files(entries, &mut to_visit, &mut found);
    assert_eq!(to_visit, vec!["waiting", "d1", "d2.jsonl"]);
    assert_eq!(found, vec!["before", "a.jsonl", "e.jsonl"]);
}

#[test]
fn a_directory_named_like_a_log_is_no_log() {
    let mut to_visit = Vec::new();
    let mut found = Vec::new();
    let entry = DirEntry { path: "x", is_dir: true, extension: Some("jsonl".to_string()) };
    collect_jsonl_files(vec![entry], &mut to_visit, &mut found);
    assert_eq!(to_visit, vec!["x"]);
    assert!(found.is_empty());
}

/// The entries of the directories of a small tree.
fn entries_of(path: &str) -> Vec<DirEntry<&'static str>> {
    match path {
        "root" => vec![dir("root/a"), file("root/1", Some("jsonl")), dir("root/b")],
        "root/a" => vec![file("root/a/2", Some("jsonl")), dir("root/a/c")],
        "root/b" => vec![file("root/b/3", Some("jsonl")), file("root/b/x", Some("txt"))],
        "root/a/c" => vec![file("root/a/c/4", Some("jsonl"))],
        _ => Vec::new(),
    }
}

#[test]
fn a_search_finds_every_log() {
    let mut to_visit = vec!["root"];
    let mut found = Vec::new();
    let mut visits: usize = 0;
    while let Some(path) = to_visit.pop() {
        collect_jsonl_files(entries_of(path), &mut to_visit, &mut found);
        visits += 1;
    }
    assert_eq!(visits, 4);
    assert_eq!(found, vec!["root/1", "root/b/3", "root/a/2", "root/a/c/4"]);
}

#[test]
fn a_search_adds_to_what_was_found_before() {
    let mut to_visit = vec!["root"];
    let mut found = vec!["earlier"];
    while let Some(path) = to_visit.pop() {
        collect_jsonl_files(entries_of(path), &mut to_visit, &mut found);
    }
    assert_eq!(found, vec!["earlier", "root/1", "root/b/3", "root/a/2", "root/a/c/4"]);
    let mut once = found.clone();
    once.sort();
    once.dedup();
    assert_eq!(once.len(), found.len());
}
