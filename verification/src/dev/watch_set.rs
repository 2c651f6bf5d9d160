use vstd::prelude::*;

verus! {

/// The filesystem paths of a configured documentation book, as resolved by the
/// book tool: its manifest file, its source directory, and its theme directory.
pub struct BookWatchPaths {
    /// Path of the book's manifest file (`book.toml`).
    pub manifest_path: String,
    /// Path of the book's source directory.
    pub source_dir: String,
    /// Path of the book's default theme directory.
    pub theme_dir: String,
    /// Whether a custom theme overrides the book's own theme. When it does,
    /// the default theme directory does not influence the output and is not
    /// watched.
    pub custom_theme: bool,
}

/// Everything the watch-set builder draws paths from: the configuration values
/// and the answers of the optional collaborators (funding metadata, the
/// documentation book, sub-project detection). All optional sources contribute
/// zero or more paths; their absence is never an error.
pub struct WatchSources {
    /// Path of the content source file (the readme).
    pub readme_path: String,
    /// Path of the configuration file itself.
    pub config_path: String,
    /// Extra paths supplied by the user.
    pub include_paths: Vec<String>,
    /// Path of the funding metadata file, when funding is configured with one.
    pub funding_yml_path: Option<String>,
    /// Path of the funding markdown page, when funding is configured with one.
    pub funding_md_path: Option<String>,
    /// Additional content pages: a mapping from logical page name to path, in
    /// insertion order. Only the path values are watched.
    pub additional_pages: Vec<(String, String)>,
    /// The documentation book's paths, when a book is configured.
    pub book: Option<BookWatchPaths>,
    /// Manifest path of a detected Rust sub-project workspace, if any.
    pub rust_manifest_path: Option<String>,
    /// Manifest path of a detected JavaScript sub-project workspace, if any.
    pub javascript_manifest_path: Option<String>,
}

/// The paths contributed by one optional source: one path when the source is
/// present, none otherwise.
pub open spec fn opt_path(p: Option<String>) -> Seq<String> {
    match p {
        Some(s) => seq![s],
        None => Seq::empty(),
    }
}

/// The path values of the additional-pages mapping, in insertion order.
pub open spec fn page_paths(pages: Seq<(String, String)>) -> Seq<String> {
    pages.map_values(|p: (String, String)| p.1)
}

/// The paths contributed by the documentation book: its manifest and source
/// directory, and its theme directory unless a custom theme overrides it.
pub open spec fn book_paths(b: Option<BookWatchPaths>) -> Seq<String> {
    match b {
        Some(bk) => if bk.custom_theme {
            seq![bk.manifest_path, bk.source_dir]
        } else {
            seq![bk.manifest_path, bk.source_dir, bk.theme_dir]
        },
        None => Seq::empty(),
    }
}

/// The full ordered watch set of a configuration: content source, config file,
/// user-supplied extra paths, funding paths, additional-page paths, book
/// paths, then sub-project manifest paths. The order is insertion order and is
/// stable, though not semantically significant.
pub open spec fn spec_watch_set(w: WatchSources) -> Seq<String> {
    seq![w.readme_path, w.config_path] + w.include_paths@ + opt_path(w.funding_yml_path)
        + opt_path(w.funding_md_path) + page_paths(w.additional_pages@) + book_paths(w.book)
        + opt_path(w.rust_manifest_path) + opt_path(w.javascript_manifest_path)
}

/// Computes the ordered set of filesystem paths that influence the generated
/// site, before the existence filter. Pure: every path comes from the given
/// sources, in the fixed order that `spec_watch_set` states.
pub fn build_watch_set(w: WatchSources) -> (r: Vec<String>)
    ensures
        r@ == spec_watch_set(w),
{
    let ghost gw = w;
    let WatchSources {
        readme_path,
        config_path,
        include_paths,
        funding_yml_path,
        funding_md_path,
        additional_pages,
        book,
        rust_manifest_path,
        javascript_manifest_path,
    } = w;
    let mut r: Vec<String> = Vec::new();
    r.push(readme_path);
    r.push(config_path);
    let mut i: usize = 0;
    while i < include_paths.len()
        invariant
            i <= include_paths.len(),
            include_paths == gw.include_paths,
            r@ == seq![gw.readme_path, gw.config_path] + gw.include_paths@.subrange(0, i as int),
        decreases include_paths.len() - i,
    {
        r.push(include_paths[i].clone());
        i = i + 1;
        proof {
            assert(gw.include_paths@.subrange(0, i as int)
                =~= gw.include_paths@.subrange(0, i - 1).push(gw.include_paths@[i - 1]));
        }
    }
    proof {
        assert(gw.include_paths@.subrange(0, gw.include_paths@.len() as int)
            =~= gw.include_paths@);
    }
    if let Some(p) = funding_yml_path {
        r.push(p);
    }
    if let Some(p) = funding_md_path {
        r.push(p);
    }
    let ghost mid = seq![gw.readme_path, gw.config_path] + gw.include_paths@
        + opt_path(gw.funding_yml_path) + opt_path(gw.funding_md_path);
    assert(r@ =~= mid);
    let mut j: usize = 0;
    while j < additional_pages.len()
        invariant
            j <= additional_pages.len(),
            additional_pages == gw.additional_pages,
            r@ == mid + page_paths(gw.additional_pages@.subrange(0, j as int)),
        decreases additional_pages.len() - j,
    {
        r.push(additional_pages[j].1.clone());
        j = j + 1;
        proof {
            assert(page_paths(gw.additional_pages@.subrange(0, j as int))
                =~= page_paths(gw.additional_pages@.subrange(0, j - 1))
                    .push(gw.additional_pages@[j - 1].1));
        }
    }
    proof {
        assert(gw.additional_pages@.subrange(0, gw.additional_pages@.len() as int)
            =~= gw.additional_pages@);
    }
    if let Some(bk) = book {
        r.push(bk.manifest_path);
        r.push(bk.source_dir);
        if !bk.custom_theme {
            r.push(bk.theme_dir);
        }
    }
    if let Some(p) = rust_manifest_path {
        r.push(p);
    }
    if let Some(p) = javascript_manifest_path {
        r.push(p);
    }
    assert(r@ =~= spec_watch_set(gw));
    r
}

/// The paths whose existence flag is set, in their original order.
pub open spec fn spec_filter_existing(paths: Seq<String>, exists: Seq<bool>) -> Seq<String>
    decreases paths.len(),
{
    if paths.len() == 0 {
        Seq::empty()
    } else {
        let rest = spec_filter_existing(paths.drop_first(), exists.drop_first());
        if exists.len() > 0 && exists[0] {
            seq![paths[0]] + rest
        } else {
            rest
        }
    }
}

/// Drops every path whose existence probe came back false: only paths that
/// exist on the filesystem at watch-setup time are subscribed, and a missing
/// path means the corresponding feature is simply unused. The caller probes
/// the filesystem and hands the answers in `exists`, index for index.
pub fn filter_existing(paths: Vec<String>, exists: &Vec<bool>) -> (r: Vec<String>)
    requires
        paths@.len() == exists@.len(),
    ensures
        r@ == spec_filter_existing(paths@, exists@),
{
    let ghost all = paths@;
    let ghost flags = exists@;
    let mut r: Vec<String> = Vec::new();
    let mut i: usize = 0;
    proof {
        assert(all.skip(0) =~= all);
        assert(flags.skip(0) =~= flags);
        assert(Seq::<String>::empty() + spec_filter_existing(all, flags)
            =~= spec_filter_existing(all, flags));
    }
    while i < paths.len()
        invariant
            i <= paths.len(),
            paths@ == all,
            exists@ == flags,
            all.len() == flags.len(),
            spec_filter_existing(all, flags) == r@ + spec_filter_existing(
                all.skip(i as int),
                flags.skip(i as int),
            ),
        decreases paths.len() - i,
    {
        proof {
            assert(all.skip(i as int).drop_first() =~= all.skip(i + 1));
            assert(flags.skip(i as int).drop_first() =~= flags.skip(i + 1));
            assert(all.skip(i as int)[0] == all[i as int]);
            assert(flags.skip(i as int)[0] == flags[i as int]);
        }
        if exists[i] {
            r.push(paths[i].clone());
            proof {
                assert(r@ + spec_filter_existing(all.skip(i + 1), flags.skip(i + 1))
                    =~= r@.drop_last() + (seq![all[i as int]] + spec_filter_existing(
                    all.skip(i + 1),
                    flags.skip(i + 1),
                )));
            }
        }
        i = i + 1;
    }
    proof {
        assert(all.skip(all.len() as int) =~= Seq::<String>::empty());
        assert(flags.skip(flags.len() as int) =~= Seq::<bool>::empty());
        assert(r@ =~= r@ + Seq::<String>::empty());
    }
    r
}

} // verus!
