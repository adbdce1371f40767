use std::io::Write;

use ore_monitor::extract::{extract_all, extract_mod_info, parse_mod_info, parse_plugin_info, ExtractError};
use ore_monitor::json::{parse_json, Json};
use ore_monitor::mod_info::OreModInfo;

fn archive(entries: &[(&str, &str)]) -> Vec<u8> {
    let cursor = std::io::Cursor::new(Vec::new());
    let mut writer = zip::ZipWriter::new(cursor);
    for (name, content) in entries {
        writer
            .start_file(*name, zip::write::SimpleFileOptions::default())
            .unwrap();
        writer.write_all(content.as_bytes()).unwrap();
    }
    writer.finish().unwrap().into_inner()
}

const NUCLEUS_MCMOD: &str = "{\"info\": {\"modid\": \"nucleus\", \"name\": \"Nucleus\", \"version\": \"2.1.4\", \"dependencies\": [\"spongeapi@7.3\"], \"requiredMods\": [\"spongeapi@7.3\"]}}";

#[test]
fn legacy_schema_round_trip() {
    let data = archive(&[("mcmod.info", NUCLEUS_MCMOD)]);
    let info = extract_mod_info(&data).unwrap();
    assert_eq!(info.modid, "nucleus");
    assert_eq!(info.name, "Nucleus");
    assert_eq!(info.version, "2.1.4");
    assert_eq!(info.major_api_version, 7);
}

#[test]
fn modern_schema_empty_plugins_defaults() {
    let data = archive(&[("META-INF/sponge_plugins.json", "{\"plugins\": []}")]);
    let info = extract_mod_info(&data).unwrap();
    assert_eq!(info.modid, "");
    assert_eq!(info.name, "");
    assert_eq!(info.version, "");
    assert_eq!(info.major_api_version, 0);
}

#[test]
fn modern_schema_full_record() {
    let text = "{\"global\": {\"version\": \"1.2\", \"dependencies\": [{\"id\": \"spongeapi\", \"version\": \"8.1.0\"}]}, \"plugins\": [{\"id\": \"husky\", \"name\": \"Husky Crates\", \"version\": \"2.0.0 PRE9\", \"dependencies\": []}]}";
    let data = archive(&[("META-INF/sponge_plugins.json", text)]);
    let info = extract_mod_info(&data).unwrap();
    assert_eq!(info.modid, "husky");
    assert_eq!(info.name, "Husky Crates");
    assert_eq!(info.version, "2.0.0-PRE9");
    assert_eq!(info.major_api_version, 8);
}

#[test]
fn legacy_takes_priority_over_modern() {
    let data = archive(&[
        ("mcmod.info", NUCLEUS_MCMOD),
        ("META-INF/sponge_plugins.json", "{\"plugins\": []}"),
    ]);
    let info = extract_mod_info(&data).unwrap();
    assert_eq!(info.modid, "nucleus");
}

#[test]
fn broken_legacy_falls_back_to_modern() {
    let data = archive(&[
        ("mcmod.info", "not json at all"),
        (
            "META-INF/sponge_plugins.json",
            "{\"plugins\": [{\"id\": \"p\", \"name\": \"P\", \"dependencies\": []}]}",
        ),
    ]);
    let info = extract_mod_info(&data).unwrap();
    assert_eq!(info.modid, "p");
    assert_eq!(info.version, "");
    assert_eq!(info.major_api_version, 0);
}

#[test]
fn legacy_empty_modid_is_rejected() {
    let text = "{\"info\": {\"modid\": \"\", \"name\": \"N\", \"version\": \"1.0\", \"dependencies\": [], \"requiredMods\": []}}";
    let data = archive(&[("mcmod.info", text)]);
    assert_eq!(extract_mod_info(&data), Err(ExtractError::NoMetadata));
}

#[test]
fn archive_without_metadata_is_an_error() {
    let data = archive(&[("plugin.class", "bytecode")]);
    assert_eq!(extract_mod_info(&data), Err(ExtractError::NoMetadata));
}

#[test]
fn non_archive_bytes_are_an_error() {
    let data = b"definitely not a zip archive".to_vec();
    assert_eq!(extract_mod_info(&data), Err(ExtractError::NoMetadata));
}

#[test]
fn batch_keeps_only_extractable_archives() {
    let good = archive(&[("mcmod.info", NUCLEUS_MCMOD)]);
    let bad = b"not an archive".to_vec();
    let batch: Vec<Vec<u8>> = vec![good, bad];
    let records: Vec<OreModInfo> = extract_all(&batch);
    assert_eq!(records.len(), 1);
    assert_eq!(records[0].modid, "nucleus");
}

#[test]
fn batch_keeps_order_of_successes() {
    let one = archive(&[("mcmod.info", NUCLEUS_MCMOD)]);
    let two = archive(&[("META-INF/sponge_plugins.json", "{\"plugins\": []}")]);
    let batch: Vec<Vec<u8>> = vec![one, b"junk".to_vec(), two];
    let records = extract_all(&batch);
    assert_eq!(records.len(), 2);
    assert_eq!(records[0].modid, "nucleus");
    assert_eq!(records[1].modid, "");
}

#[test]
fn json_parser_reads_the_tree() {
    let j = parse_json("{\"a\": [\"x\", null, true], \"b\": \"y\"}").unwrap();
    let a = j.get("a").unwrap();
    match a {
        Json::Arr(items) => {
            assert_eq!(items.len(), 3);
            assert_eq!(items[0], Json::Str("x".to_string()));
            assert_eq!(items[1], Json::Null);
            assert_eq!(items[2], Json::Bool(true));
        },
        _ => panic!("expected an array"),
    }
    assert_eq!(j.str_field("b").unwrap(), "y");
    assert!(parse_json("not json").is_none());
}

#[test]
fn legacy_document_requires_all_fields() {
    let missing = parse_json("{\"info\": {\"modid\": \"m\", \"name\": \"n\"}}").unwrap();
    assert!(parse_mod_info(&missing).is_none());
    let complete = parse_json(NUCLEUS_MCMOD).unwrap();
    let m = parse_mod_info(&complete).unwrap();
    assert_eq!(m.info.modid, "nucleus");
    assert_eq!(m.info.dependencies, vec!["spongeapi@7.3".to_string()]);
}

#[test]
fn modern_document_optional_fields() {
    let j = parse_json(
        "{\"plugins\": [{\"id\": \"p\", \"name\": \"P\", \"version\": null, \"dependencies\": []}]}",
    )
    .unwrap();
    let p = parse_plugin_info(&j).unwrap();
    assert_eq!(p.global, None);
    assert_eq!(p.plugins[0].version, None);
    let bad = parse_json("{\"plugins\": [{\"id\": \"p\", \"name\": \"P\", \"version\": 3, \"dependencies\": []}]}")
        .unwrap();
    assert!(parse_plugin_info(&bad).is_none());
}
