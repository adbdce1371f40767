use ore_monitor::mod_info::{GlobalPlugin, McModInfo, ModInfo, OreModInfo, PluginData, PluginDependency, PluginInfo};

fn legacy(deps: Vec<&str>, reqs: Vec<&str>) -> McModInfo {
    McModInfo {
        modid: "nucleus".to_string(),
        name: "Nucleus".to_string(),
        version: "2.1.4".to_string(),
        dependencies: deps.into_iter().map(|s| s.to_string()).collect(),
        required_mods: reqs.into_iter().map(|s| s.to_string()).collect(),
    }
}

#[test]
fn resolves_simple_dependency() {
    let m = legacy(vec!["spongeapi@7.3"], vec![]);
    assert_eq!(m.sponge_tag_version(), 7);
}

#[test]
fn resolution_is_idempotent() {
    let m = legacy(vec!["placeholderapi", "spongeapi@7.1.0-SNAPSHOT"], vec!["huskyui@0.6.0PRE3"]);
    let first = m.sponge_tag_version();
    let second = m.sponge_tag_version();
    assert_eq!(first, second);
    assert_eq!(first, 7);
}

#[test]
fn fallback_to_required_mods() {
    let m = legacy(vec!["spongeapi@SNAPSHOT"], vec!["spongeapi@7.3"]);
    assert_eq!(m.sponge_tag_version(), 7);
}

#[test]
fn first_parsed_candidate_wins() {
    let m = legacy(vec!["spongeapi@SNAPSHOT", "spongeapi@7.1.0"], vec![]);
    assert_eq!(m.sponge_tag_version(), 7);
}

#[test]
fn dependencies_list_takes_priority() {
    let m = legacy(vec!["spongeapi@7.3"], vec!["spongeapi@8.0"]);
    assert_eq!(m.sponge_tag_version(), 7);
}

#[test]
fn entry_without_separator_never_matches() {
    let m = legacy(vec!["spongeapi"], vec![]);
    assert_eq!(m.find_major_version("spongeapi", &m.dependencies), None);
    assert_eq!(m.sponge_tag_version(), 0);
}

#[test]
fn version_without_dot_never_matches() {
    let m = legacy(vec!["spongeapi@7"], vec![]);
    assert_eq!(m.find_major_version("spongeapi", &m.dependencies), None);
}

#[test]
fn declared_major_version_reports_failure() {
    let m = legacy(vec!["spongeapi@SNAPSHOT"], vec!["other@1.0"]);
    assert_eq!(m.declared_major_version(), None);
    let ok = legacy(vec![], vec!["spongeapi@7.3"]);
    assert_eq!(ok.declared_major_version(), Some(7));
}

#[test]
fn legacy_prefix_match_is_case_sensitive() {
    let m = legacy(vec!["SpongeAPI@7.3"], vec![]);
    assert_eq!(m.sponge_tag_version(), 0);
}

fn dep(id: &str, version: &str) -> PluginDependency {
    PluginDependency { id: id.to_string(), version: version.to_string() }
}

#[test]
fn modern_id_match_ignores_ascii_case() {
    let d = dep("SpongeAPI", "8.1.0");
    assert!(d.is_sponge_dep());
    assert_eq!(d.major_api_version(), 8);
}

#[test]
fn modern_unparseable_major_defaults_to_zero() {
    let d = dep("spongeapi", "SNAPSHOT.1");
    assert!(d.is_sponge_dep());
    assert_eq!(d.major_api_version(), 0);
}

#[test]
fn modern_global_list_takes_priority() {
    let info = PluginInfo {
        global: Some(GlobalPlugin {
            version: "1.0".to_string(),
            dependencies: vec![dep("spongeapi", "8.1.0")],
        }),
        plugins: vec![PluginData {
            id: "p".to_string(),
            name: "P".to_string(),
            version: None,
            dependencies: vec![dep("spongeapi", "7.3")],
        }],
    };
    assert_eq!(info.major_api_version(), 8);
}

#[test]
fn modern_first_matching_dependency_wins() {
    let info = PluginInfo {
        global: None,
        plugins: vec![PluginData {
            id: "p".to_string(),
            name: "P".to_string(),
            version: None,
            dependencies: vec![dep("other", "9.0"), dep("spongeapi", "7.3"), dep("spongeapi", "8.0")],
        }],
    };
    assert_eq!(info.major_api_version(), 7);
}

#[test]
fn modern_without_plugins_defaults_to_zero() {
    let info = PluginInfo { global: None, plugins: vec![] };
    assert_eq!(info.major_api_version(), 0);
    let first = info.first_plugin();
    assert_eq!(first.id, "");
    assert_eq!(first.name, "");
    assert_eq!(first.version, None);
    assert!(first.dependencies.is_empty());
}

#[test]
fn normalizes_legacy_record() {
    let m = legacy(vec!["spongeapi@7.3"], vec![]);
    let info = OreModInfo::from_mod_info(ModInfo { info: m });
    assert_eq!(
        info,
        OreModInfo::new("nucleus".to_string(), "Nucleus".to_string(), "2.1.4".to_string(), 7)
    );
    let again = legacy(vec!["spongeapi@7.3"], vec![]);
    assert_eq!(OreModInfo::from_mcmod(again), info);
}

#[test]
fn normalizes_modern_record_with_spaced_version() {
    let info = PluginInfo {
        global: None,
        plugins: vec![PluginData {
            id: "husky".to_string(),
            name: "Husky".to_string(),
            version: Some("2.0.0 PRE9 H2".to_string()),
            dependencies: vec![dep("spongeapi", "7.1.0-SNAPSHOT")],
        }],
    };
    let ore = OreModInfo::from_plugin_info(info);
    assert_eq!(ore.version, "2.0.0-PRE9-H2");
    assert_eq!(ore.major_api_version, 7);
    assert_eq!(ore.modid, "husky");
}
