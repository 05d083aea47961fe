use laurel_lsp::file_selector::{accepts, excluded, file_selector, Choice, Entry, Modal, Walk};

#[test]
fn an_empty_pattern_takes_everything() {
    assert!(laurel_lsp::file_selector::matches("src/main.rs", ""));
    assert!(laurel_lsp::file_selector::matches("", ""));
    assert!(accepts("", None));
    assert!(accepts("", Some(-5)));
}

#[test]
fn a_pattern_takes_what_scores_above_zero() {
    assert!(accepts("main", Some(1)));
    assert!(accepts("main", Some(120)));
    assert!(!accepts("main", Some(0)));
    assert!(!accepts("main", Some(-10)));
    assert!(!accepts("main", None));
}

#[test]
fn matches_follows_the_matcher() {
    assert!(laurel_lsp::file_selector::matches("./src/main.rs", "main"));
    assert!(laurel_lsp::file_selector::matches("./src/main.rs", "smr"));
    assert!(laurel_lsp::file_selector::matches("./Cargo.lock", "cargo"));
    assert!(!laurel_lsp::file_selector::matches("./src/main.rs", "xyz"));
    assert!(!laurel_lsp::file_selector::matches("abc", "abcd"));
    assert!(!laurel_lsp::file_selector::matches("", "a"));
}

#[test]
fn a_late_single_letter_scores_too_low() {
    assert!(!laurel_lsp::file_selector::matches("aaaaaaaaac", "c"));
    assert!(laurel_lsp::file_selector::matches("c", "c"));
}

#[test]
fn file_selector_offers_the_matching_files_in_order() {
    let files = vec![
        "./src/main.rs".to_string(),
        "./Cargo.lock".to_string(),
        "./src/domain.rs".to_string(),
        "./notes.txt".to_string(),
    ];
    assert_eq!(
        file_selector("./", &files, "main"),
        vec![
            Choice { label: "src/main.rs".to_string(), file: "./src/main.rs".to_string() },
            Choice { label: "src/domain.rs".to_string(), file: "./src/domain.rs".to_string() },
        ]
    );
    assert_eq!(file_selector("./", &files, "zzz"), vec![]);
}

#[test]
fn file_selector_without_a_filter_offers_all() {
    let files = vec!["/work/a.rs".to_string(), "/work/sub/b.rs".to_string()];
    assert_eq!(
        file_selector("/work", &files, ""),
        vec![
            Choice { label: "/a.rs".to_string(), file: "/work/a.rs".to_string() },
            Choice { label: "/sub/b.rs".to_string(), file: "/work/sub/b.rs".to_string() },
        ]
    );
    assert_eq!(file_selector("/work", &Vec::new(), ""), vec![]);
}

#[test]
fn labels_lose_every_occurrence_of_the_path() {
    let files = vec!["ab/x/ab/y".to_string()];
    assert_eq!(
        file_selector("ab/", &files, ""),
        vec![Choice { label: "x/y".to_string(), file: "ab/x/ab/y".to_string() }]
    );
}

#[test]
fn a_modal_names_its_directory() {
    assert_eq!(Modal::FileSelector("./".to_string()), Modal::FileSelector("./".to_string()));
    assert_ne!(Modal::FileSelector("./".to_string()), Modal::FileSelector("/".to_string()));
}

fn folder(name: &str, path: &str) -> Entry {
    Entry::Folder { name: name.to_string(), path: path.to_string() }
}

fn file(path: &str) -> Entry {
    Entry::File(path.to_string())
}

#[test]
fn excluded_goes_by_the_whole_name() {
    let list = vec!["target".to_string(), ".git".to_string()];
    assert!(excluded(&"target".to_string(), &list));
    assert!(excluded(&".git".to_string(), &list));
    assert!(!excluded(&"targets".to_string(), &list));
    assert!(!excluded(&"src".to_string(), &list));
    assert!(!excluded(&"".to_string(), &list));
    assert!(!excluded(&"target".to_string(), &Vec::new()));
}

#[test]
fn a_walk_starts_with_its_directory() {
    let mut walk = Walk::new("./".to_string());
    assert_eq!(walk.next_folder(), Some("./".to_string()));
    assert_eq!(walk.next_folder(), None);
    assert_eq!(walk.next_folder(), None);
    assert_eq!(walk.finish(), Vec::<String>::new());
}

#[test]
fn a_walk_goes_breadth_first() {
    let list = vec!["target".to_string(), ".git".to_string()];
    let mut walk = Walk::new("./".to_string());
    assert_eq!(walk.next_folder(), Some("./".to_string()));
    walk.visit(
        vec![
            file("./Cargo.lock"),
            folder("src", "./src"),
            folder("target", "./target"),
            Entry::Other,
            folder("docs", "./docs"),
            file("./Cargo.toml"),
            folder(".git", "./.git"),
        ],
        &list,
    );
    assert_eq!(walk.next_folder(), Some("./src".to_string()));
    walk.visit(vec![folder("bin", "./src/bin"), file("./src/lib.rs")], &list);
    assert_eq!(walk.next_folder(), Some("./docs".to_string()));
    walk.visit(vec![file("./docs/index.md"), folder("target", "./docs/target")], &list);
    assert_eq!(walk.next_folder(), Some("./src/bin".to_string()));
    walk.visit(vec![file("./src/bin/main.rs")], &list);
    assert_eq!(walk.next_folder(), None);
    assert_eq!(
        walk.finish(),
        vec![
            "./Cargo.lock".to_string(),
            "./Cargo.toml".to_string(),
            "./src/lib.rs".to_string(),
            "./docs/index.md".to_string(),
            "./src/bin/main.rs".to_string(),
        ]
    );
}

#[test]
fn a_walk_with_nothing_excluded_enters_every_directory() {
    let mut walk = Walk::new("/".to_string());
    walk.next_folder();
    walk.visit(vec![folder("target", "/target"), folder(".git", "/.git")], &Vec::new());
    assert_eq!(walk.next_folder(), Some("/target".to_string()));
    assert_eq!(walk.next_folder(), Some("/.git".to_string()));
    assert_eq!(walk.next_folder(), None);
}
