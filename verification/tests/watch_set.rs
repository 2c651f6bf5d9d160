use oranda::dev::debounce::{coalesce_windows, split_batch, RawEvent, TimedEvent};
use oranda::dev::orchestrator::{step, LoopEvent, LoopState};
use oranda::dev::watch_set::{build_watch_set, filter_existing, BookWatchPaths, WatchSources};

fn bare_sources() -> WatchSources {
    WatchSources {
        readme_path: "README.md".to_string(),
        config_path: "oranda.json".to_string(),
        include_paths: Vec::new(),
        funding_yml_path: None,
        funding_md_path: None,
        additional_pages: Vec::new(),
        book: None,
        rust_manifest_path: None,
        javascript_manifest_path: None,
    }
}

#[test]
fn watch_set_with_book_and_default_theme() {
    let mut sources = bare_sources();
    sources.include_paths = vec!["docs/extra.md".to_string(), "docs/other.md".to_string()];
    sources.book = Some(BookWatchPaths {
        manifest_path: "book/book.toml".to_string(),
        source_dir: "book/src".to_string(),
        theme_dir: "book/theme".to_string(),
        custom_theme: false,
    });
    let paths = build_watch_set(sources);
    assert_eq!(
        paths,
        vec![
            "README.md",
            "oranda.json",
            "docs/extra.md",
            "docs/other.md",
            "book/book.toml",
            "book/src",
            "book/theme",
        ]
    );
}

#[test]
fn custom_theme_excludes_the_default_theme_dir() {
    let mut sources = bare_sources();
    sources.book = Some(BookWatchPaths {
        manifest_path: "book/book.toml".to_string(),
        source_dir: "book/src".to_string(),
        theme_dir: "book/theme".to_string(),
        custom_theme: true,
    });
    let paths = build_watch_set(sources);
    assert_eq!(paths, vec!["README.md", "oranda.json", "book/book.toml", "book/src"]);
}

#[test]
fn optional_sources_contribute_in_insertion_order() {
    let mut sources = bare_sources();
    sources.funding_yml_path = Some("funding.yml".to_string());
    sources.funding_md_path = Some("funding.md".to_string());
    sources.additional_pages = vec![
        ("guide".to_string(), "docs/guide.md".to_string()),
        ("faq".to_string(), "docs/faq.md".to_string()),
    ];
    sources.rust_manifest_path = Some("Cargo.toml".to_string());
    sources.javascript_manifest_path = Some("package.json".to_string());
    let paths = build_watch_set(sources);
    assert_eq!(
        paths,
        vec![
            "README.md",
            "oranda.json",
            "funding.yml",
            "funding.md",
            "docs/guide.md",
            "docs/faq.md",
            "Cargo.toml",
            "package.json",
        ]
    );
}

#[test]
fn nonexistent_paths_are_silently_dropped() {
    let mut sources = bare_sources();
    sources.include_paths = vec!["docs/extra.md".to_string()];
    sources.book = Some(BookWatchPaths {
        manifest_path: "book/book.toml".to_string(),
        source_dir: "book/src".to_string(),
        theme_dir: "book/theme".to_string(),
        custom_theme: false,
    });
    let paths = build_watch_set(sources);
    // Pretend the theme directory and the extra page are missing on disk.
    let exists = vec![true, true, false, true, true, false];
    let watched = filter_existing(paths, &exists);
    assert_eq!(watched, vec!["README.md", "oranda.json", "book/book.toml", "book/src"]);
}

#[test]
fn include_path_scenario_yields_one_rebuild() {
    // Configuration: one extra include path, no funding file, no book.
    let mut sources = bare_sources();
    sources.include_paths = vec!["docs/extra.md".to_string()];
    let paths = build_watch_set(sources);
    assert_eq!(paths, vec!["README.md", "oranda.json", "docs/extra.md"]);
    // funding.yml does not exist; every computed path does.
    let exists = vec![true, true, true];
    let watched = filter_existing(paths, &exists);
    assert_eq!(watched, vec!["README.md", "oranda.json", "docs/extra.md"]);

    // Two raw change events for the same path, 10 ms apart, inside a one
    // second window: exactly one batch, naming the path once or twice but
    // never zero times, and exactly one rebuild.
    let events = vec![
        TimedEvent { at_ms: 0, event: RawEvent::PathChanged("docs/extra.md".to_string()) },
        TimedEvent { at_ms: 10, event: RawEvent::PathChanged("docs/extra.md".to_string()) },
    ];
    let mut batches = coalesce_windows(events, 1000);
    assert_eq!(batches.len(), 1);
    let out = step(LoopState::Waiting, LoopEvent::Batch(batches.remove(0)));
    let built = out.start_build.expect("one rebuild must start");
    assert!(!built.is_empty());
    assert!(built.len() <= 2);
    assert!(built.iter().all(|p| p == "docs/extra.md"));
    // No second rebuild can start until this one returns.
    assert!(matches!(out.state, LoopState::Building { .. }));
}

#[test]
fn empty_window_split_produces_no_paths() {
    let (batch, errors) = split_batch(Vec::new());
    assert!(batch.paths.is_empty());
    assert!(errors.is_empty());
    assert!(batch.is_empty());
}
