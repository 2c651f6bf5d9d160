use oranda::data::cargo_dist::{get_kind_string, get_os, ArtifactKind, Installer};
use oranda::data::github::repo::{remove_git_suffix, GithubRepo, GithubRepoInput};
use oranda::data::{DistManifestInfo, Release, Releases};
use oranda::errors::OrandaError;

fn release(tag: &str, prerelease: bool, with_manifest: bool) -> Release {
    Release {
        manifest: if with_manifest {
            Some(DistManifestInfo { announcement_changelog: Some(format!("notes for {tag}")) })
        } else {
            None
        },
        source: github_release(tag, prerelease),
    }
}

fn github_release(tag: &str, prerelease: bool) -> oranda::data::github::GithubRelease {
    oranda::data::github::GithubRelease {
        url: String::new(),
        assets_url: String::new(),
        html_url: String::new(),
        id: 1,
        tag_name: tag.to_string(),
        target_commitish: "main".to_string(),
        name: None,
        draft: false,
        prerelease,
        created_at: String::new(),
        published_at: String::new(),
        assets: Vec::new(),
        tarball_url: String::new(),
        zipball_url: String::new(),
        body: None,
    }
}

fn asset(name: &str, url: &str) -> oranda::data::github::GithubReleaseAsset {
    oranda::data::github::GithubReleaseAsset {
        url: String::new(),
        id: 7,
        node_id: String::new(),
        name: name.to_string(),
        label: String::new(),
        content_type: String::new(),
        state: String::new(),
        size: 0,
        download_count: 0,
        created_at: String::new(),
        updated_at: String::new(),
        browser_download_url: url.to_string(),
    }
}

#[test]
fn from_url_parses_owner_and_name() {
    let repo = GithubRepo::from_url("https://github.com/axodotdev/oranda").unwrap();
    assert_eq!(repo.owner, "axodotdev");
    assert_eq!(repo.name, "oranda");
}

#[test]
fn from_url_strips_the_git_suffix() {
    let repo = GithubRepo::from_url("https://github.com/axodotdev/oranda.git").unwrap();
    assert_eq!(repo.owner, "axodotdev");
    assert_eq!(repo.name, "oranda");
}

#[test]
fn from_url_accepts_a_trailing_slash() {
    let repo = GithubRepo::from_url("https://github.com/axodotdev/oranda/").unwrap();
    assert_eq!(repo.owner, "axodotdev");
    assert_eq!(repo.name, "oranda");
}

#[test]
fn from_url_rejects_a_single_segment() {
    let err = GithubRepo::from_url("https://github.com/axodotdev").unwrap_err();
    match err {
        OrandaError::RepoParseError { repo } => {
            assert_eq!(repo, "https://github.com/axodotdev");
        }
        OrandaError::Other { .. } => panic!("expected a repository-parse error"),
    }
}

#[test]
fn from_url_rejects_extra_nonempty_segments() {
    let err = GithubRepo::from_url("https://github.com/a/b/c").unwrap_err();
    assert!(matches!(err, OrandaError::RepoParseError { .. }));
}

#[test]
fn repo_input_classifies_ssh_remotes() {
    let input = GithubRepoInput::new("git@github.com:axodotdev/oranda.git".to_string());
    assert!(matches!(input, GithubRepoInput::Ssh(_)));
}

#[test]
fn remove_git_suffix_removes_every_occurrence() {
    assert_eq!(remove_git_suffix("oranda.git".to_string()), "oranda");
    assert_eq!(remove_git_suffix("my.gitrepo.git".to_string()), "myrepo");
    assert_eq!(remove_git_suffix("oranda".to_string()), "oranda");
    assert_eq!(remove_git_suffix(".gitty".to_string()), ".gitty");
}

#[test]
fn flat_repo_parse_requires_exactly_two_segments() {
    let repo = oranda::data::github::GithubRepo::from("https://github.com/axodotdev/oranda")
        .unwrap();
    assert_eq!(repo.owner(), "axodotdev");
    assert_eq!(repo.name(), "oranda");
    assert!(oranda::data::github::GithubRepo::from("https://github.com/axodotdev/oranda/extra")
        .is_err());
    assert!(oranda::data::github::GithubRepo::from("not a url").is_err());
}

#[test]
fn asset_url_returns_the_first_match() {
    let mut rel = github_release("v1.0.0", false);
    rel.assets = vec![
        asset("tool.zip", "https://example.com/first"),
        asset("tool.tar.gz", "https://example.com/tarball"),
        asset("tool.zip", "https://example.com/second"),
    ];
    assert_eq!(rel.asset_url("tool.zip").as_deref(), Some("https://example.com/first"));
    assert_eq!(rel.asset_url("tool.tar.gz").as_deref(), Some("https://example.com/tarball"));
    assert_eq!(rel.asset_url("missing.zip"), None);
}

#[test]
fn get_os_maps_known_triples() {
    assert_eq!(get_os("x86_64-unknown-linux-gnu"), Some("linux"));
    assert_eq!(get_os("x86_64-apple-darwin"), Some("mac"));
    assert_eq!(get_os("aarch64-apple-darwin"), Some("arm mac"));
    assert_eq!(get_os("x86_64-pc-windows-msvc"), Some("windows"));
    assert_eq!(get_os("riscv64gc-unknown-linux-gnu"), None);
}

#[test]
fn get_os_ignores_surrounding_whitespace() {
    assert_eq!(get_os("  x86_64-apple-darwin \n"), Some("mac"));
    assert_eq!(get_os("x86_64-apple-darwin "), Some("mac"));
}

#[test]
fn kind_strings_match_the_table_labels() {
    assert_eq!(get_kind_string(&ArtifactKind::ExecutableZip), "Executable Zip");
    assert_eq!(get_kind_string(&ArtifactKind::Symbols), "Symbols");
    assert_eq!(get_kind_string(&ArtifactKind::Installer), "Installer");
    assert_eq!(get_kind_string(&ArtifactKind::Other), "Unknown");
}

#[test]
fn assemble_records_prereleases() {
    let releases = Releases::assemble(vec![
        release("v1.1.0-rc.1", true, false),
        release("v1.0.0", false, true),
    ]);
    assert!(releases.has_prereleases);
    assert_eq!(releases.all.len(), 2);

    let stable_only = Releases::assemble(vec![release("v1.0.0", false, false)]);
    assert!(!stable_only.has_prereleases);
}

#[test]
fn latest_is_the_first_release() {
    let releases = Releases::assemble(vec![
        release("v2.0.0", false, false),
        release("v1.0.0", false, true),
    ]);
    assert_eq!(releases.latest().unwrap().source.tag_name, "v2.0.0");
    let empty = Releases::assemble(Vec::new());
    assert!(empty.latest().is_none());
}

#[test]
fn latest_dist_release_skips_releases_without_a_manifest() {
    let releases = Releases::assemble(vec![
        release("v2.0.0", false, false),
        release("v1.0.0", false, true),
    ]);
    assert_eq!(releases.latest_dist_release().unwrap().source.tag_name, "v1.0.0");
    let none = Releases::assemble(vec![release("v2.0.0", false, false)]);
    assert!(none.latest_dist_release().is_none());
}

#[test]
fn installer_carries_the_placeholder_hint() {
    let installer = Installer::new(release("v1.0.0", false, true)).unwrap();
    assert_eq!(installer.hint(), "dummy");
}

#[test]
fn error_labels_name_the_variant() {
    let parse = OrandaError::RepoParseError { repo: "nope".to_string() };
    assert_eq!(parse.label(), "repository URL could not be parsed");
    let other = OrandaError::Other { details: "boom".to_string() };
    assert_eq!(other.label(), "error");
}
