use ore_monitor::mod_info::OreModInfo;
use ore_monitor::schemas::{
    Category, Project, ProjectLicense, ProjectNamespace, ProjectSettings, ProjectStatsAll,
    PromotedVersion, PromotedVersionTag, UserActions, VersionTagColor,
};
use ore_monitor::version_status::{VersionDisplay, VersionStatus};

fn tag(name: &str, display_data: Option<&str>) -> PromotedVersionTag {
    PromotedVersionTag {
        name: name.to_string(),
        data: None,
        display_data: display_data.map(|s| s.to_string()),
        minecraft_version: None,
        color: VersionTagColor { foreground: String::new(), background: String::new() },
    }
}

fn promoted(version: &str, tags: Vec<PromotedVersionTag>) -> PromotedVersion {
    PromotedVersion { version: version.to_string(), tags }
}

fn project(promoted_versions: Vec<PromotedVersion>) -> Project {
    Project {
        created_at: String::new(),
        plugin_id: "nucleus".to_string(),
        name: "Nucleus".to_string(),
        namespace: ProjectNamespace { owner: "dev".to_string(), slug: "nucleus".to_string() },
        promoted_versions,
        stats: ProjectStatsAll {
            views: 0,
            downloads: 0,
            recent_views: 0,
            recent_downloads: 0,
            stars: 0,
            watchers: 0,
        },
        category: Category::AdminTools,
        description: String::new(),
        last_updated: String::new(),
        visibility: "public".to_string(),
        user_actions: UserActions { starred: false, watching: false },
        settings: ProjectSettings {
            homepage: None,
            issues: None,
            sources: None,
            license: ProjectLicense { name: None, url: None },
            forum_sync: false,
        },
        icon_url: String::new(),
    }
}

#[test]
fn matches_promoted_version_by_major() {
    let p = project(vec![
        promoted("1.0", vec![tag("Sponge API", Some("6.2"))]),
        promoted("2.0", vec![tag("Sponge API", Some("7.3"))]),
    ]);
    assert_eq!(p.version_from_tag(7), "2.0");
    assert_eq!(p.version_from_tag(6), "1.0");
}

#[test]
fn no_match_yields_empty_sentinel() {
    let p = project(vec![
        promoted("1.0", vec![tag("Sponge API", Some("6.2"))]),
        promoted("2.0", vec![tag("Sponge API", Some("7.3"))]),
    ]);
    assert_eq!(p.version_from_tag(9), "");
}

#[test]
fn first_matching_promotion_wins() {
    let p = project(vec![
        promoted("8.0-old", vec![tag("Sponge API", Some("8.0"))]),
        promoted("8.1-new", vec![tag("Sponge API", Some("8.0"))]),
    ]);
    assert_eq!(p.version_from_tag(8), "8.0-old");
}

#[test]
fn unusable_tags_read_as_zero() {
    let none = promoted("1.0", vec![]);
    let wrong_name = promoted("2.0", vec![tag("Forge", Some("7.3"))]);
    let no_display = promoted("3.0", vec![tag("Sponge API", None)]);
    let no_dot = promoted("4.0", vec![tag("Sponge API", Some("7"))]);
    let not_numeric = promoted("5.0", vec![tag("Sponge API", Some("x.3"))]);
    assert_eq!(none.tagged_major(), 0);
    assert_eq!(wrong_name.tagged_major(), 0);
    assert_eq!(no_display.tagged_major(), 0);
    assert_eq!(no_dot.tagged_major(), 0);
    assert_eq!(not_numeric.tagged_major(), 0);
    let p = project(vec![none, wrong_name]);
    assert_eq!(p.version_from_tag(0), "1.0");
}

#[test]
fn tag_name_matched_by_substring() {
    let p = project(vec![promoted("2.0", vec![tag("SpongeForge", Some("7.0"))])]);
    assert_eq!(p.version_from_tag(7), "2.0");
}

#[test]
fn version_display_reports_check_outcome() {
    let p = project(vec![promoted("2.0", vec![tag("Sponge API", Some("7.3"))])]);
    let local = OreModInfo {
        modid: "nucleus".to_string(),
        name: "Nucleus".to_string(),
        version: "1.0".to_string(),
        major_api_version: 7,
    };
    let report = VersionDisplay::new(local, &p);
    assert_eq!(report.id, "nucleus");
    assert_eq!(report.local_version, "1.0");
    assert_eq!(report.remote_version, "2.0");
    assert_eq!(report.status, VersionStatus::OutOfDate);
}

#[test]
fn version_display_with_no_remote_match() {
    let p = project(vec![]);
    let local = OreModInfo {
        modid: "nucleus".to_string(),
        name: "Nucleus".to_string(),
        version: "1.0".to_string(),
        major_api_version: 7,
    };
    let report = VersionDisplay::new(local, &p);
    assert_eq!(report.remote_version, "");
    assert_eq!(report.status, VersionStatus::Overdated);
}
