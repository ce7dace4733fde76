use slop::{Entry, Passage, Pattern, Replace};

fn job(pattern: &str, prompt: &str) -> Replace {
    Replace::new(
        vec!["cargo".to_string(), "test".to_string()],
        "rewrite function".to_string(),
        "foo/bar".to_string(),
        prompt.to_string(),
        Pattern::new(pattern).unwrap(),
    )
}

fn file(path: &str, text: &str) -> Entry {
    Entry {
        path: path.to_string(),
        is_dir: false,
        extension: Some("rs".to_string()),
        text: text.to_string(),
    }
}

#[test]
fn first_matching_file_is_chosen() {
    let j = job("m+", "%%");
    let entries = vec![file("foo/bar/a.rs", "nothing"), file("foo/bar/b.rs", "xmm")];
    let p = j.find(&entries).unwrap();
    assert_eq!(p.path(), "foo/bar/b.rs");
    assert_eq!(p.start(), 1);
    assert_eq!(p.end(), 3);
}

#[test]
fn walk_order_beats_earliest_offset() {
    let j = job("m", "%%");
    let entries = vec![file("a.rs", "xxxxm"), file("b.rs", "m")];
    let p = j.find(&entries).unwrap();
    assert_eq!(p.path(), "a.rs");
    assert_eq!(p.start(), 4);
}

#[test]
fn no_match_anywhere_is_none() {
    let j = job("m", "%%");
    let entries = vec![file("a.rs", "x"), file("b.rs", "y")];
    assert!(j.find(&entries).is_none());
    assert!(j.find(&Vec::new()).is_none());
}

#[test]
fn directories_and_other_extensions_are_skipped() {
    let j = job("m", "%%");
    let entries = vec![
        Entry { path: "d".to_string(), is_dir: true, extension: Some("rs".to_string()), text: "m".to_string() },
        Entry { path: "a.txt".to_string(), is_dir: false, extension: Some("txt".to_string()), text: "m".to_string() },
        Entry { path: "Makefile".to_string(), is_dir: false, extension: None, text: "m".to_string() },
        file("c.rs", "am"),
    ];
    let p = j.find(&entries).unwrap();
    assert_eq!(p.path(), "c.rs");
}

#[test]
fn qualifies_only_rust_files() {
    assert!(Entry::qualifies(false, &Some("rs".to_string())));
    assert!(!Entry::qualifies(true, &Some("rs".to_string())));
    assert!(!Entry::qualifies(false, &Some("rsx".to_string())));
    assert!(!Entry::qualifies(false, &Some("r".to_string())));
    assert!(!Entry::qualifies(false, &None));
}

#[test]
fn prompt_substitutes_matched_text() {
    let j = job("M", "X %% Y %% Z");
    let p = Passage::find(&Pattern::new("M").unwrap(), "a.rs".to_string(), "aMb".to_string()).unwrap();
    assert_eq!(j.prompt(&p), b"X M Y M Z".to_vec());
}

#[test]
fn job_getters() {
    let j = job("m", "hello %% goodbye");
    assert_eq!(j.check_command(), &vec!["cargo".to_string(), "test".to_string()]);
    assert_eq!(j.commit_message(), "rewrite function");
    assert_eq!(j.root(), "foo/bar");
}
