//! Extraction of a normalized metadata record from a plugin archive.
//!
//! An archive may carry its metadata under two schemas, tried in priority
//! order: the legacy file `mcmod.info` at the archive root, then the modern
//! file `META-INF/sponge_plugins.json`. When neither yields a record the
//! archive is reported unusable; in batch mode such archives are dropped and
//! the rest are kept.

use vstd::prelude::*;

use crate::json::{
    json_of, parse_json, spec_obj_get, spec_str_field, spec_string_list, string_list, Json,
};
use crate::mod_info::{
    spec_ore_of_mcmod, spec_ore_of_plugin, GlobalPlugin, GlobalPluginView, McModInfo,
    McModInfoView, ModInfo, OreModInfo, OreModInfoView, PluginData, PluginDataView,
    PluginDependency, PluginDependencyView, PluginInfo, PluginInfoView,
};

verus! {

/// The error extraction reports: the archive is unreadable or holds no
/// metadata under either supported schema.
#[derive(Debug, Clone, PartialEq, Eq, Structural)]
pub enum ExtractError {
    NoMetadata,
}

/// The UTF-8 text of the named entry of a zip archive given by its bytes:
/// `None` when the bytes are not a readable archive, no entry has that
/// name, or the entry does not hold UTF-8 text.
pub uninterp spec fn zip_entry_text(data: Seq<u8>, name: Seq<char>) -> Option<Seq<char>>;

/// Relies on zip::ZipArchive::new and ZipArchive::by_name, and on
/// std::io::Read::read_to_string, all over an in-memory cursor: what the
/// named entry of an archive holds is a function of the archive bytes and
/// the entry name alone.
#[verifier::external_body]
fn read_zip_entry(data: &Vec<u8>, name: &str) -> (r: Option<String>)
    ensures
        (r is Some) == (zip_entry_text(data@, name@) is Some),
        r matches Some(t) ==> zip_entry_text(data@, name@) == Some(t@),
{
    let cursor = std::io::Cursor::new(data.as_slice());
    let mut archive = zip::ZipArchive::new(cursor).ok()?;
    let mut entry = archive.by_name(name).ok()?;
    let mut text = String::new();
    std::io::Read::read_to_string(&mut entry, &mut text).ok()?;
    Some(text)
}

/// The string list under `key` of `j`: `None` when the field is absent, not
/// an array, or holds a non-string.
pub open spec fn spec_json_string_list(j: Json, key: Seq<char>) -> Option<Seq<Seq<char>>> {
    match spec_obj_get(j, key) {
        Some(v) => match v {
            Json::Arr(items) => spec_string_list(items@),
            _ => None,
        },
        None => None,
    }
}

/// The legacy record held by the object under the legacy root's `info` key.
/// All five fields are required, and `modid` and `version` must be
/// non-empty: a record without an identity or a version is no use to the
/// version check, so extraction rejects it.
pub open spec fn spec_mcmod_record(info: Json) -> Option<McModInfoView> {
    match spec_str_field(info, "modid"@) {
        Some(modid) => match spec_str_field(info, "name"@) {
            Some(name) => match spec_str_field(info, "version"@) {
                Some(version) => match spec_json_string_list(info, "dependencies"@) {
                    Some(dependencies) => match spec_json_string_list(info, "requiredMods"@) {
                        Some(required_mods) => if modid.len() > 0 && version.len() > 0 {
                            Some(
                                McModInfoView {
                                    modid,
                                    name,
                                    version,
                                    dependencies,
                                    required_mods,
                                },
                            )
                        } else {
                            None
                        },
                        None => None,
                    },
                    None => None,
                },
                None => None,
            },
            None => None,
        },
        None => None,
    }
}

/// The legacy record of a legacy metadata document: its `info` field.
pub open spec fn spec_mod_info_of_json(j: Json) -> Option<McModInfoView> {
    match spec_obj_get(j, "info"@) {
        Some(info) => spec_mcmod_record(info),
        None => None,
    }
}

/// The structured dependency held by a modern-schema object: `id` and
/// `version` are required strings.
pub open spec fn spec_dep_of_json(j: Json) -> Option<PluginDependencyView> {
    match spec_str_field(j, "id"@) {
        Some(id) => match spec_str_field(j, "version"@) {
            Some(version) => Some(PluginDependencyView { id, version }),
            None => None,
        },
        None => None,
    }
}

/// The structured dependencies of an array: `None` as soon as one element is
/// not a dependency object.
pub open spec fn spec_dep_list(items: Seq<Json>) -> Option<Seq<PluginDependencyView>> {
    if forall|i: int| 0 <= i < items.len() ==> spec_dep_of_json(items[i]) is Some {
        Some(Seq::new(items.len(), |i: int| spec_dep_of_json(items[i]).unwrap()))
    } else {
        None
    }
}

/// The dependency list under `key` of `j`.
pub open spec fn spec_json_dep_list(j: Json, key: Seq<char>) -> Option<Seq<PluginDependencyView>> {
    match spec_obj_get(j, key) {
        Some(v) => match v {
            Json::Arr(items) => spec_dep_list(items@),
            _ => None,
        },
        None => None,
    }
}

/// The archive-wide record of a modern document: `version` and
/// `dependencies` are required.
pub open spec fn spec_global_of_json(j: Json) -> Option<GlobalPluginView> {
    match spec_str_field(j, "version"@) {
        Some(version) => match spec_json_dep_list(j, "dependencies"@) {
            Some(dependencies) => Some(GlobalPluginView { version, dependencies }),
            None => None,
        },
        None => None,
    }
}

/// An optional string field: absent or null reads as `None`; a non-string
/// value rejects the record.
pub open spec fn spec_opt_str_field(j: Json, key: Seq<char>) -> Option<Option<Seq<char>>> {
    match spec_obj_get(j, key) {
        None => Some(None),
        Some(v) => match v {
            Json::Null => Some(None),
            Json::Str(s) => Some(Some(s@)),
            _ => None,
        },
    }
}

/// One plugin entry of a modern document: `id`, `name` and `dependencies`
/// are required, `version` is optional.
pub open spec fn spec_plugin_data_of_json(j: Json) -> Option<PluginDataView> {
    match spec_str_field(j, "id"@) {
        Some(id) => match spec_str_field(j, "name"@) {
            Some(name) => match spec_opt_str_field(j, "version"@) {
                Some(version) => match spec_json_dep_list(j, "dependencies"@) {
                    Some(dependencies) => Some(
                        PluginDataView { id, name, version, dependencies },
                    ),
                    None => None,
                },
                None => None,
            },
            None => None,
        },
        None => None,
    }
}

/// The plugin entries of an array: `None` as soon as one element is not a
/// plugin object.
pub open spec fn spec_plugin_list(items: Seq<Json>) -> Option<Seq<PluginDataView>> {
    if forall|i: int| 0 <= i < items.len() ==> spec_plugin_data_of_json(items[i]) is Some {
        Some(Seq::new(items.len(), |i: int| spec_plugin_data_of_json(items[i]).unwrap()))
    } else {
        None
    }
}

/// The optional `global` record: absent or null reads as `None`; a value
/// that is not a well-formed global record rejects the document.
pub open spec fn spec_opt_global(j: Json) -> Option<Option<GlobalPluginView>> {
    match spec_obj_get(j, "global"@) {
        None => Some(None),
        Some(g) => match g {
            Json::Null => Some(None),
            _ => match spec_global_of_json(g) {
                Some(gv) => Some(Some(gv)),
                None => None,
            },
        },
    }
}

/// The modern record of a modern metadata document: an optional `global`
/// record and a required `plugins` array.
pub open spec fn spec_plugin_info_of_json(j: Json) -> Option<PluginInfoView> {
    match spec_opt_global(j) {
        Some(global) => match spec_obj_get(j, "plugins"@) {
            Some(v) => match v {
                Json::Arr(items) => match spec_plugin_list(items@) {
                    Some(plugins) => Some(PluginInfoView { global, plugins }),
                    None => None,
                },
                _ => None,
            },
            None => None,
        },
        None => None,
    }
}

/// The string list under `key`, when `j` holds an all-string array there.
fn json_string_list(j: &Json, key: &str) -> (r: Option<Vec<String>>)
    ensures
        match r {
            Some(v) => spec_json_string_list(*j, key@) == Some(v.deep_view()),
            None => spec_json_string_list(*j, key@) is None,
        },
{
    match j.get(key) {
        Some(v) => match v.as_arr() {
            Some(items) => string_list(items),
            None => None,
        },
        None => None,
    }
}

/// Reads the legacy record out of the object under the legacy root's `info`
/// key.
fn parse_mcmod_record(info: &Json) -> (r: Option<McModInfo>)
    ensures
        match r {
            Some(m) => spec_mcmod_record(*info) == Some(m@),
            None => spec_mcmod_record(*info) is None,
        },
{
    let modid = match info.str_field("modid") {
        Some(s) => s.clone(),
        None => {
            return None;
        },
    };
    let name = match info.str_field("name") {
        Some(s) => s.clone(),
        None => {
            return None;
        },
    };
    let version = match info.str_field("version") {
        Some(s) => s.clone(),
        None => {
            return None;
        },
    };
    let dependencies = match json_string_list(info, "dependencies") {
        Some(v) => v,
        None => {
            return None;
        },
    };
    let required_mods = match json_string_list(info, "requiredMods") {
        Some(v) => v,
        None => {
            return None;
        },
    };
    if modid.as_str().is_empty() || version.as_str().is_empty() {
        return None;
    }
    let out = McModInfo { modid, name, version, dependencies, required_mods };
    proof {
        assert(spec_mcmod_record(*info) == Some(out@)) by {
            assert(spec_mcmod_record(*info).unwrap() =~= out@);
        }
    }
    Some(out)
}

/// Reads a legacy metadata document.
pub fn parse_mod_info(j: &Json) -> (r: Option<ModInfo>)
    ensures
        match r {
            Some(m) => spec_mod_info_of_json(*j) == Some(m@),
            None => spec_mod_info_of_json(*j) is None,
        },
{
    match j.get("info") {
        Some(info) => match parse_mcmod_record(info) {
            Some(mc) => Some(ModInfo { info: mc }),
            None => None,
        },
        None => None,
    }
}

/// Reads one structured dependency.
fn parse_dep(j: &Json) -> (r: Option<PluginDependency>)
    ensures
        match r {
            Some(d) => spec_dep_of_json(*j) == Some(d@),
            None => spec_dep_of_json(*j) is None,
        },
{
    let id = match j.str_field("id") {
        Some(s) => s.clone(),
        None => {
            return None;
        },
    };
    let version = match j.str_field("version") {
        Some(s) => s.clone(),
        None => {
            return None;
        },
    };
    Some(PluginDependency { id, version })
}

/// Reads a structured dependency array element by element.
#[verifier::loop_isolation(false)]
fn dep_list(items: &Vec<Json>) -> (r: Option<Vec<PluginDependency>>)
    ensures
        match r {
            Some(v) => spec_dep_list(items@) == Some(v.deep_view()),
            None => spec_dep_list(items@) is None,
        },
{
    let n = items.len();
    let mut out: Vec<PluginDependency> = Vec::new();
    let mut i: usize = 0;
    while i < n
        invariant
            0 <= i <= n,
            out.len() == i,
            forall|j: int| 0 <= j < i ==> spec_dep_of_json(items@[j]) is Some,
            forall|j: int|
                0 <= j < i ==> out.deep_view()[j] == spec_dep_of_json(items@[j]).unwrap(),
        decreases n - i,
    {
        let ghost prev = out.deep_view();
        match parse_dep(&items[i]) {
            Some(d) => {
                out.push(d);
                proof {
                    assert(out.deep_view() =~= prev.push(spec_dep_of_json(items@[i as int]).unwrap()));
                }
            },
            None => {
                return None;
            },
        }
        i += 1;
    }
    proof {
        let ghost expected = Seq::new(items@.len(), |j: int| spec_dep_of_json(items@[j]).unwrap());
        assert(out.deep_view() =~= expected);
    }
    Some(out)
}

/// The dependency list under `key`, when `j` holds one there.
fn json_dep_list(j: &Json, key: &str) -> (r: Option<Vec<PluginDependency>>)
    ensures
        match r {
            Some(v) => spec_json_dep_list(*j, key@) == Some(v.deep_view()),
            None => spec_json_dep_list(*j, key@) is None,
        },
{
    match j.get(key) {
        Some(v) => match v.as_arr() {
            Some(items) => dep_list(items),
            None => None,
        },
        None => None,
    }
}

/// Reads the archive-wide record of a modern document.
fn parse_global(j: &Json) -> (r: Option<GlobalPlugin>)
    ensures
        match r {
            Some(g) => spec_global_of_json(*j) == Some(g@),
            None => spec_global_of_json(*j) is None,
        },
{
    let version = match j.str_field("version") {
        Some(s) => s.clone(),
        None => {
            return None;
        },
    };
    let dependencies = match json_dep_list(j, "dependencies") {
        Some(v) => v,
        None => {
            return None;
        },
    };
    Some(GlobalPlugin { version, dependencies })
}

/// Reads an optional string field: absent or null is `None`.
fn opt_str_field(j: &Json, key: &str) -> (r: Option<Option<String>>)
    ensures
        match r {
            Some(o) => spec_opt_str_field(*j, key@) == Some(o.deep_view()),
            None => spec_opt_str_field(*j, key@) is None,
        },
{
    match j.get(key) {
        None => Some(None),
        Some(v) => match v {
            Json::Null => Some(None),
            Json::Str(s) => Some(Some(s.clone())),
            _ => None,
        },
    }
}

/// Reads one plugin entry of a modern document.
fn parse_plugin_data(j: &Json) -> (r: Option<PluginData>)
    ensures
        match r {
            Some(p) => spec_plugin_data_of_json(*j) == Some(p@),
            None => spec_plugin_data_of_json(*j) is None,
        },
{
    let id = match j.str_field("id") {
        Some(s) => s.clone(),
        None => {
            return None;
        },
    };
    let name = match j.str_field("name") {
        Some(s) => s.clone(),
        None => {
            return None;
        },
    };
    let version = match opt_str_field(j, "version") {
        Some(o) => o,
        None => {
            return None;
        },
    };
    let dependencies = match json_dep_list(j, "dependencies") {
        Some(v) => v,
        None => {
            return None;
        },
    };
    Some(PluginData { id, name, version, dependencies })
}

/// Reads the plugin array of a modern document element by element.
#[verifier::loop_isolation(false)]
fn plugin_list(items: &Vec<Json>) -> (r: Option<Vec<PluginData>>)
    ensures
        match r {
            Some(v) => spec_plugin_list(items@) == Some(v.deep_view()),
            None => spec_plugin_list(items@) is None,
        },
{
    let n = items.len();
    let mut out: Vec<PluginData> = Vec::new();
    let mut i: usize = 0;
    while i < n
        invariant
            0 <= i <= n,
            out.len() == i,
            forall|j: int| 0 <= j < i ==> spec_plugin_data_of_json(items@[j]) is Some,
            forall|j: int|
                0 <= j < i ==> out.deep_view()[j] == spec_plugin_data_of_json(items@[j]).unwrap(),
        decreases n - i,
    {
        let ghost prev = out.deep_view();
        match parse_plugin_data(&items[i]) {
            Some(p) => {
                out.push(p);
                proof {
                    assert(out.deep_view() =~= prev.push(
                        spec_plugin_data_of_json(items@[i as int]).unwrap(),
                    ));
                }
            },
            None => {
                return None;
            },
        }
        i += 1;
    }
    proof {
        let ghost expected = Seq::new(
            items@.len(),
            |j: int| spec_plugin_data_of_json(items@[j]).unwrap(),
        );
        assert(out.deep_view() =~= expected);
    }
    Some(out)
}

/// Reads a modern metadata document.
pub fn parse_plugin_info(j: &Json) -> (r: Option<PluginInfo>)
    ensures
        match r {
            Some(p) => spec_plugin_info_of_json(*j) == Some(p@),
            None => spec_plugin_info_of_json(*j) is None,
        },
{
    let global: Option<GlobalPlugin> = match j.get("global") {
        None => None,
        Some(g) => match g {
            Json::Null => None,
            _ => match parse_global(g) {
                Some(gv) => Some(gv),
                None => {
                    return None;
                },
            },
        },
    };
    let plugins = match j.get("plugins") {
        Some(v) => match v.as_arr() {
            Some(items) => match plugin_list(items) {
                Some(p) => p,
                None => {
                    return None;
                },
            },
            None => {
                return None;
            },
        },
        None => {
            return None;
        },
    };
    let out = PluginInfo { global, plugins };
    proof {
        assert(spec_plugin_info_of_json(*j) == Some(out@)) by {
            assert(spec_plugin_info_of_json(*j).unwrap() =~= out@);
        }
    }
    Some(out)
}

/// What the legacy schema extracts from an archive's bytes.
pub open spec fn spec_legacy_extract(data: Seq<u8>) -> Option<OreModInfoView> {
    match zip_entry_text(data, "mcmod.info"@) {
        Some(t) => match json_of(t) {
            Some(j) => match spec_mod_info_of_json(j) {
                Some(m) => Some(spec_ore_of_mcmod(m)),
                None => None,
            },
            None => None,
        },
        None => None,
    }
}

/// What the modern schema extracts from an archive's bytes.
pub open spec fn spec_modern_extract(data: Seq<u8>) -> Option<OreModInfoView> {
    match zip_entry_text(data, "META-INF/sponge_plugins.json"@) {
        Some(t) => match json_of(t) {
            Some(j) => match spec_plugin_info_of_json(j) {
                Some(p) => Some(spec_ore_of_plugin(p)),
                None => None,
            },
            None => None,
        },
        None => None,
    }
}

/// What extraction yields from an archive's bytes: the legacy schema when it
/// succeeds, else the modern schema, else nothing.
pub open spec fn spec_extract(data: Seq<u8>) -> Option<OreModInfoView> {
    match spec_legacy_extract(data) {
        Some(v) => Some(v),
        None => spec_modern_extract(data),
    }
}

/// Attempts the legacy schema on an archive's bytes.
fn try_legacy(data: &Vec<u8>) -> (r: Option<OreModInfo>)
    ensures
        match r {
            Some(info) => spec_legacy_extract(data@) == Some(info@),
            None => spec_legacy_extract(data@) is None,
        },
{
    match read_zip_entry(data, "mcmod.info") {
        Some(text) => match parse_json(text.as_str()) {
            Some(j) => match parse_mod_info(&j) {
                Some(m) => Some(OreModInfo::from_mod_info(m)),
                None => None,
            },
            None => None,
        },
        None => None,
    }
}

/// Attempts the modern schema on an archive's bytes.
fn try_modern(data: &Vec<u8>) -> (r: Option<OreModInfo>)
    ensures
        match r {
            Some(info) => spec_modern_extract(data@) == Some(info@),
            None => spec_modern_extract(data@) is None,
        },
{
    match read_zip_entry(data, "META-INF/sponge_plugins.json") {
        Some(text) => match parse_json(text.as_str()) {
            Some(j) => match parse_plugin_info(&j) {
                Some(p) => Some(OreModInfo::from_plugin_info(p)),
                None => None,
            },
            None => None,
        },
        None => None,
    }
}

/// Extracts the normalized record from an archive's bytes: the legacy schema
/// first, the modern one when that fails, and the no-metadata error when
/// both do.
pub fn extract_mod_info(data: &Vec<u8>) -> (r: Result<OreModInfo, ExtractError>)
    ensures
        match r {
            Ok(info) => spec_extract(data@) == Some(info@),
            Err(e) => spec_extract(data@) is None && e == ExtractError::NoMetadata,
        },
{
    match try_legacy(data) {
        Some(info) => Ok(info),
        None => match try_modern(data) {
            Some(info) => Ok(info),
            None => Err(ExtractError::NoMetadata),
        },
    }
}

/// What batch extraction yields: the records of the archives that extract,
/// in order; archives that fail are dropped.
pub open spec fn spec_extract_all(list: Seq<Seq<u8>>) -> Seq<OreModInfoView>
    decreases list.len(),
{
    if list.len() == 0 {
        Seq::empty()
    } else {
        match spec_extract(list[0]) {
            Some(v) => seq![v] + spec_extract_all(list.drop_first()),
            None => spec_extract_all(list.drop_first()),
        }
    }
}

/// Extracts every archive of a batch independently: archives that fail are
/// dropped from the result, and the records of those that succeed come out
/// in the batch's order.
#[verifier::loop_isolation(false)]
pub fn extract_all(archives: &Vec<Vec<u8>>) -> (r: Vec<OreModInfo>)
    ensures
        r.deep_view() == spec_extract_all(archives.deep_view()),
{
    let n = archives.len();
    let mut out: Vec<OreModInfo> = Vec::new();
    let mut i: usize = 0;
    proof {
        assert(archives.deep_view().skip(0) =~= archives.deep_view());
    }
    while i < n
        invariant
            0 <= i <= n,
            spec_extract_all(archives.deep_view()) =~= out.deep_view() + spec_extract_all(
                archives.deep_view().skip(i as int),
            ),
        decreases n - i,
    {
        let ghost rest = archives.deep_view().skip(i as int);
        proof {
            assert(rest[0] =~= archives@[i as int]@);
            assert(rest.drop_first() =~= archives.deep_view().skip(i + 1));
        }
        let ghost prev = out.deep_view();
        match extract_mod_info(&archives[i]) {
            Ok(info) => {
                out.push(info);
                proof {
                    assert(out.deep_view() =~= prev.push(spec_extract(rest[0]).unwrap()));
                    assert(out.deep_view() + spec_extract_all(rest.drop_first()) =~= prev
                        + spec_extract_all(rest));
                }
            },
            Err(_) => {
                proof {
                    assert(out.deep_view() + spec_extract_all(rest.drop_first()) =~= prev
                        + spec_extract_all(rest));
                }
            },
        }
        i += 1;
    }
    proof {
        assert(archives.deep_view().skip(n as int) =~= Seq::<Seq<u8>>::empty());
        assert(out.deep_view() =~= out.deep_view() + spec_extract_all(
            archives.deep_view().skip(n as int),
        ));
    }
    out
}

} // verus!
