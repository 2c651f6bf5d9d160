use oranda::config::marketing::{MarketingConfig, MarketingLayer, SocialLayer};
use oranda::data::cargo_dist::{ArtifactKind, DistArtifactInfo};
use oranda::data::{DistManifestInfo, Release};
use oranda::errors::OrandaError;
use oranda::site::artifacts::InstallerArtifact;
use oranda::site::changelog::{published_date_label, release_body_source, PreviewMeta};
use oranda::site::funding::{decode_funding_contents, funding_link_urls, Contents, Funding};
use oranda::site::layout::css::concat_minify;

#[test]
fn funding_links_come_in_rendering_order() {
    let funding = Funding {
        github: Some(vec!["alice".to_string(), "bob".to_string()]),
        patreon: Some("carol".to_string()),
        open_collective: None,
        ko_fi: Some("dave".to_string()),
        tidelift: None,
        community_bridge: Some("ignored".to_string()),
        liberapay: None,
        issuehunt: Some("erin".to_string()),
        lfx_crowdfunding: "ignored".to_string(),
        custom: Some(vec!["https://example.com".to_string()]),
    };
    let links = funding_link_urls(&funding);
    assert_eq!(
        links,
        vec![
            "https://github.com/sponsors/alice",
            "https://github.com/sponsors/bob",
            "https://www.patreon.com/carol",
            "https://ko-fi.com/dave",
            "https://issuehunt.io/r/erin",
        ]
    );
}

#[test]
fn empty_funding_declaration_renders_no_links() {
    let links = funding_link_urls(&Funding::default());
    assert!(links.is_empty());
}

#[test]
fn single_channel_renders_a_single_link() {
    let funding = Funding { tidelift: Some("pkg/oranda".to_string()), ..Funding::default() };
    assert_eq!(funding_link_urls(&funding), vec!["https://tidelift.com/subscription/pkg/pkg/oranda"]);
}

fn artifact(description: Option<&str>, triples: &[&str]) -> DistArtifactInfo {
    DistArtifactInfo {
        name: Some("tool.zip".to_string()),
        kind: ArtifactKind::ExecutableZip,
        target_triples: triples.iter().map(|t| t.to_string()).collect(),
        description: description.map(|d| d.to_string()),
    }
}

#[test]
fn title_prefers_the_description() {
    let title = InstallerArtifact::title(artifact(Some("Shell installer"), &["x86_64-apple-darwin"]));
    assert_eq!(title, "Shell installer");
}

#[test]
fn title_falls_back_to_the_os_label() {
    let title = InstallerArtifact::title(artifact(None, &["x86_64-apple-darwin"]));
    assert_eq!(title, "mac");
}

#[test]
fn title_falls_back_to_the_joined_triples() {
    let title = InstallerArtifact::title(artifact(
        None,
        &["x86_64-unknown-linux-gnu", "x86_64-apple-darwin"],
    ));
    assert_eq!(title, "x86_64-unknown-linux-gnu x86_64-apple-darwin ");
}

#[test]
fn marketing_layer_clobbers_analytics_and_layers_social_fields() {
    let mut config = MarketingConfig::default();
    config.social.image = Some("old.png".to_string());
    config.social.image_alt = Some("old alt".to_string());
    let layer = MarketingLayer {
        analytics: None,
        social: Some(SocialLayer {
            image: Some("new.png".to_string()),
            image_alt: None,
            twitter_account: Some("@oranda".to_string()),
        }),
    };
    config.apply_layer(layer);
    assert!(config.analytics.is_none());
    assert_eq!(config.social.image.as_deref(), Some("new.png"));
    assert_eq!(config.social.image_alt.as_deref(), Some("old alt"));
    assert_eq!(config.social.twitter_account.as_deref(), Some("@oranda"));
}

#[test]
fn absent_social_layer_keeps_the_social_config() {
    let mut config = MarketingConfig::default();
    config.social.twitter_account = Some("@axodotdev".to_string());
    config.apply_layer(MarketingLayer { analytics: None, social: None });
    assert_eq!(config.social.twitter_account.as_deref(), Some("@axodotdev"));
}

#[test]
fn funding_contents_decode_across_line_breaks() {
    // "github: [alice]\n" in standard base64, broken into lines the way the
    // contents API transports it.
    let contents = Contents {
        name: "FUNDING.yml".to_string(),
        content: "Z2l0aHVi\nOiBbYWxp\nY2Vd\n".to_string(),
    };
    let bytes = decode_funding_contents(&contents).unwrap();
    assert_eq!(bytes, b"github: [alice]");
}

#[test]
fn invalid_base64_is_a_parse_failure() {
    let contents = Contents {
        name: "FUNDING.yml".to_string(),
        content: "this is not base64!".to_string(),
    };
    assert!(matches!(
        decode_funding_contents(&contents),
        Err(OrandaError::Other { .. })
    ));
}

#[test]
fn concat_minify_joins_minified_stylesheets() {
    let files = vec![(
        "custom.css".to_string(),
        ".foo > p { color: red; }".to_string(),
    )];
    let css = concat_minify(&files).unwrap();
    assert_eq!(css, "/* custom.css */.foo>p{color:red;}");
}

#[test]
fn concat_minify_of_nothing_is_empty() {
    let css = concat_minify(&Vec::new()).unwrap();
    assert_eq!(css, "");
}

#[test]
fn published_date_label_formats_valid_timestamps() {
    let label = published_date_label(&"2023-01-15T12:30:00Z".to_string());
    assert_eq!(label, "Jan 15 2023 at 12:30 UTC");
}

#[test]
fn published_date_label_keeps_invalid_timestamps() {
    let label = published_date_label(&"yesterday-ish".to_string());
    assert_eq!(label, "yesterday-ish");
}

#[test]
fn preview_meta_assembles_the_entry_pieces() {
    let mut rel = Release {
        manifest: None,
        source: oranda::data::github::GithubRelease {
            url: String::new(),
            assets_url: String::new(),
            html_url: String::new(),
            id: 1,
            tag_name: "v0.3.0".to_string(),
            target_commitish: "main".to_string(),
            name: None,
            draft: false,
            prerelease: true,
            created_at: String::new(),
            published_at: "2023-01-15T12:30:00Z".to_string(),
            assets: Vec::new(),
            tarball_url: String::new(),
            zipball_url: String::new(),
            body: Some("release notes".to_string()),
        },
    };
    let meta = PreviewMeta::new(&rel);
    assert_eq!(meta.title, "v0.3.0");
    assert_eq!(meta.link, "#v0.3.0");
    assert_eq!(meta.date_label, "Jan 15 2023 at 12:30 UTC");
    assert_eq!(meta.classnames, "release pre-release hidden");
    assert_eq!(release_body_source(&rel), "release notes");

    rel.source.name = Some("A big release".to_string());
    rel.source.prerelease = false;
    rel.manifest = Some(DistManifestInfo { announcement_changelog: None });
    let meta = PreviewMeta::new(&rel);
    assert_eq!(meta.title, "A big release");
    assert_eq!(meta.classnames, "release");
    assert_eq!(release_body_source(&rel), "");
}
