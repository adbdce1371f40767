//! The metadata records a plugin archive can embed, and the resolution of
//! the platform-API major version a plugin declares.
//!
//! Two schemas exist: the legacy one (a `ModInfo` record with free-form
//! dependency strings of the shape `"<id>@<version>"`) and the modern one (a
//! `PluginInfo` record with structured dependencies). Both normalize into an
//! `OreModInfo`.

use vstd::prelude::*;

use crate::text::{
    eq_ignore_ascii_case, parse_u32, replace_spaces, spec_eq_ignore_ascii_case, spec_parse_u32,
    spec_replace_spaces, spec_split_once, spec_starts_with, split_once, starts_with,
};

verus! {

/// The normalized record both metadata schemas converge into.
#[derive(Debug, Clone, PartialEq, Eq)]
pub struct OreModInfo {
    pub modid: String,
    pub name: String,
    pub version: String,
    pub major_api_version: u32,
}

/// The root of a legacy metadata file: a single `info` record.
#[derive(Debug, Clone, PartialEq, Eq)]
pub struct ModInfo {
    pub info: McModInfo,
}

/// A legacy metadata record, with its two dependency lists.
#[derive(Debug, Clone, PartialEq, Eq)]
pub struct McModInfo {
    pub modid: String,
    pub name: String,
    pub version: String,
    pub dependencies: Vec<String>,
    pub required_mods: Vec<String>,
}

/// The root of a modern metadata file.
#[derive(Debug, Clone, PartialEq, Eq)]
pub struct PluginInfo {
    pub global: Option<GlobalPlugin>,
    pub plugins: Vec<PluginData>,
}

/// The optional archive-wide record of a modern metadata file.
#[derive(Debug, Clone, PartialEq, Eq)]
pub struct GlobalPlugin {
    pub version: String,
    pub dependencies: Vec<PluginDependency>,
}

/// One structured dependency of the modern schema.
#[derive(Debug, Clone, PartialEq, Eq)]
pub struct PluginDependency {
    pub id: String,
    pub version: String,
}

/// One plugin entry of the modern schema.
#[derive(Debug, Clone, PartialEq, Eq)]
pub struct PluginData {
    pub id: String,
    pub name: String,
    pub version: Option<String>,
    pub dependencies: Vec<PluginDependency>,
}

#[verifier::ext_equal]
pub ghost struct OreModInfoView {
    pub modid: Seq<char>,
    pub name: Seq<char>,
    pub version: Seq<char>,
    pub major_api_version: u32,
}

#[verifier::ext_equal]
pub ghost struct McModInfoView {
    pub modid: Seq<char>,
    pub name: Seq<char>,
    pub version: Seq<char>,
    pub dependencies: Seq<Seq<char>>,
    pub required_mods: Seq<Seq<char>>,
}

#[verifier::ext_equal]
pub ghost struct PluginInfoView {
    pub global: Option<GlobalPluginView>,
    pub plugins: Seq<PluginDataView>,
}

#[verifier::ext_equal]
pub ghost struct GlobalPluginView {
    pub version: Seq<char>,
    pub dependencies: Seq<PluginDependencyView>,
}

#[verifier::ext_equal]
pub ghost struct PluginDependencyView {
    pub id: Seq<char>,
    pub version: Seq<char>,
}

#[verifier::ext_equal]
pub ghost struct PluginDataView {
    pub id: Seq<char>,
    pub name: Seq<char>,
    pub version: Option<Seq<char>>,
    pub dependencies: Seq<PluginDependencyView>,
}

impl View for OreModInfo {
    type V = OreModInfoView;

    open spec fn view(&self) -> OreModInfoView {
        OreModInfoView {
            modid: self.modid@,
            name: self.name@,
            version: self.version@,
            major_api_version: self.major_api_version,
        }
    }
}

impl DeepView for OreModInfo {
    type V = OreModInfoView;

    open spec fn deep_view(&self) -> OreModInfoView {
        self.view()
    }
}

impl View for McModInfo {
    type V = McModInfoView;

    open spec fn view(&self) -> McModInfoView {
        McModInfoView {
            modid: self.modid@,
            name: self.name@,
            version: self.version@,
            dependencies: self.dependencies.deep_view(),
            required_mods: self.required_mods.deep_view(),
        }
    }
}

impl View for ModInfo {
    type V = McModInfoView;

    open spec fn view(&self) -> McModInfoView {
        self.info@
    }
}

impl View for PluginDependency {
    type V = PluginDependencyView;

    open spec fn view(&self) -> PluginDependencyView {
        PluginDependencyView { id: self.id@, version: self.version@ }
    }
}

impl DeepView for PluginDependency {
    type V = PluginDependencyView;

    open spec fn deep_view(&self) -> PluginDependencyView {
        self.view()
    }
}

impl View for PluginData {
    type V = PluginDataView;

    open spec fn view(&self) -> PluginDataView {
        PluginDataView {
            id: self.id@,
            name: self.name@,
            version: self.version.deep_view(),
            dependencies: self.dependencies.deep_view(),
        }
    }
}

impl DeepView for PluginData {
    type V = PluginDataView;

    open spec fn deep_view(&self) -> PluginDataView {
        self.view()
    }
}

impl View for GlobalPlugin {
    type V = GlobalPluginView;

    open spec fn view(&self) -> GlobalPluginView {
        GlobalPluginView { version: self.version@, dependencies: self.dependencies.deep_view() }
    }
}

impl DeepView for GlobalPlugin {
    type V = GlobalPluginView;

    open spec fn deep_view(&self) -> GlobalPluginView {
        self.view()
    }
}

impl View for PluginInfo {
    type V = PluginInfoView;

    open spec fn view(&self) -> PluginInfoView {
        PluginInfoView { global: self.global.deep_view(), plugins: self.plugins.deep_view() }
    }
}

/// The identifier of the platform-API dependency.
pub open spec fn spec_platform_id() -> Seq<char> {
    "spongeapi"@
}

/// The major version a single legacy dependency entry declares: the entry
/// must start with `id`, carry an `@`-separated version with a `.`, and its
/// leading segment must parse as a `u32`; otherwise the entry declares none.
pub open spec fn spec_candidate_major(entry: Seq<char>, id: Seq<char>) -> Option<u32> {
    if !spec_starts_with(entry, id) {
        None
    } else {
        match spec_split_once(entry, '@') {
            Some(at) => match spec_split_once(at.1, '.') {
                Some(dot) => spec_parse_u32(dot.0),
                None => None,
            },
            None => None,
        }
    }
}

/// The first entry of `list` that successfully yields a major version wins;
/// entries that merely match `id` but do not parse are skipped.
pub open spec fn spec_resolve_list(list: Seq<Seq<char>>, id: Seq<char>) -> Option<u32>
    decreases list.len(),
{
    if list.len() == 0 {
        None
    } else {
        match spec_candidate_major(list[0], id) {
            Some(v) => Some(v),
            None => spec_resolve_list(list.drop_first(), id),
        }
    }
}

/// Resolution over both legacy lists: `dependencies` first, `required_mods`
/// only when the first list yields nothing.
pub open spec fn spec_resolve_legacy(m: McModInfoView) -> Option<u32> {
    match spec_resolve_list(m.dependencies, spec_platform_id()) {
        Some(v) => Some(v),
        None => spec_resolve_list(m.required_mods, spec_platform_id()),
    }
}

/// The platform major version of a legacy record, `0` when resolution fails.
pub open spec fn spec_sponge_tag(m: McModInfoView) -> u32 {
    match spec_resolve_legacy(m) {
        Some(v) => v,
        None => 0,
    }
}

/// The normalized form of a legacy record.
pub open spec fn spec_ore_of_mcmod(m: McModInfoView) -> OreModInfoView {
    OreModInfoView {
        modid: m.modid,
        name: m.name,
        version: m.version,
        major_api_version: spec_sponge_tag(m),
    }
}

/// Whether a structured dependency names the platform API, up to ASCII case.
pub open spec fn spec_is_sponge_dep(d: PluginDependencyView) -> bool {
    spec_eq_ignore_ascii_case(d.id, spec_platform_id())
}

/// The major version a structured dependency declares: the leading
/// dot-separated segment of its version, `0` when that does not parse.
pub open spec fn spec_dep_major(d: PluginDependencyView) -> u32 {
    match spec_split_once(d.version, '.') {
        Some(dot) => match spec_parse_u32(dot.0) {
            Some(v) => v,
            None => 0,
        },
        None => 0,
    }
}

/// The first platform-API dependency of a structured list, if any.
pub open spec fn spec_first_sponge(list: Seq<PluginDependencyView>) -> Option<
    PluginDependencyView,
>
    decreases list.len(),
{
    if list.len() == 0 {
        None
    } else if spec_is_sponge_dep(list[0]) {
        Some(list[0])
    } else {
        spec_first_sponge(list.drop_first())
    }
}

/// The plugin record a modern metadata file is about: its first entry, or an
/// all-empty record when the file lists none.
pub open spec fn spec_first_plugin(p: PluginInfoView) -> PluginDataView {
    if p.plugins.len() > 0 {
        p.plugins[0]
    } else {
        PluginDataView {
            id: Seq::empty(),
            name: Seq::empty(),
            version: None,
            dependencies: Seq::empty(),
        }
    }
}

/// The dependency list a modern record resolves against: the global list
/// when a global record exists, else the first plugin's own list.
pub open spec fn spec_plugin_deps(p: PluginInfoView) -> Seq<PluginDependencyView> {
    match p.global {
        Some(g) => g.dependencies,
        None => spec_first_plugin(p).dependencies,
    }
}

/// The platform major version a modern record declares: that of the first
/// platform-API dependency, `0` when there is none.
pub open spec fn spec_plugin_major(p: PluginInfoView) -> u32 {
    match spec_first_sponge(spec_plugin_deps(p)) {
        Some(d) => spec_dep_major(d),
        None => 0,
    }
}

/// The normalized form of a modern record: the first plugin's identity, its
/// version with spaces replaced by hyphens (empty when absent), and the
/// resolved major version.
pub open spec fn spec_ore_of_plugin(p: PluginInfoView) -> OreModInfoView {
    let fp = spec_first_plugin(p);
    OreModInfoView {
        modid: fp.id,
        name: fp.name,
        version: spec_replace_spaces(
            match fp.version {
                Some(v) => v,
                None => Seq::empty(),
            },
        ),
        major_api_version: spec_plugin_major(p),
    }
}

impl OreModInfo {
    /// Builds the record from its four fields.
    pub fn new(modid: String, name: String, version: String, major_api_version: u32) -> (r:
        OreModInfo)
        ensures
            r.modid == modid && r.name == name && r.version == version
                && r.major_api_version == major_api_version,
    {
        OreModInfo { modid, name, version, major_api_version }
    }

    /// Normalizes a legacy record.
    pub fn from_mod_info(value: ModInfo) -> (r: OreModInfo)
        ensures
            r@ == spec_ore_of_mcmod(value@),
    {
        Self::from_mcmod(value.info)
    }

    /// Normalizes a legacy record.
    pub fn from_mcmod(info: McModInfo) -> (r: OreModInfo)
        ensures
            r@ == spec_ore_of_mcmod(info@),
    {
        let major = info.sponge_tag_version();
        OreModInfo { modid: info.modid, name: info.name, version: info.version, major_api_version: major }
    }

    /// Normalizes a modern record.
    pub fn from_plugin_info(value: PluginInfo) -> (r: OreModInfo)
        ensures
            r@ == spec_ore_of_plugin(value@),
    {
        let major = value.major_api_version();
        let plugin = value.first_plugin();
        let version = match &plugin.version {
            Some(v) => replace_spaces(v.as_str()),
            None => replace_spaces(""),
        };
        proof {
            reveal_strlit("");
            assert(("")@ =~= Seq::<char>::empty());
        }
        OreModInfo { modid: plugin.id, name: plugin.name, version, major_api_version: major }
    }
}

impl McModInfo {
    /// The platform major version this record declares, `0` when neither
    /// list yields one.
    pub fn sponge_tag_version(&self) -> (r: u32)
        ensures
            r == spec_sponge_tag(self@),
    {
        match self.find_major_version("spongeapi", &self.dependencies) {
            Some(v) => v,
            None => match self.find_major_version("spongeapi", &self.required_mods) {
                Some(v) => v,
                None => 0,
            },
        }
    }

    /// The platform major version this record declares, or `None` when both
    /// lists are exhausted without a parseable entry: the caller must then
    /// treat the platform version as unknown.
    pub fn declared_major_version(&self) -> (r: Option<u32>)
        ensures
            r == spec_resolve_legacy(self@),
    {
        match self.find_major_version("spongeapi", &self.dependencies) {
            Some(v) => Some(v),
            None => self.find_major_version("spongeapi", &self.required_mods),
        }
    }

    /// Scans `list` for the first entry that starts with `id` and carries a
    /// parseable `@`-separated, dot-led major version.
    pub fn find_major_version(&self, id: &str, list: &Vec<String>) -> (r: Option<u32>)
        ensures
            r == spec_resolve_list(list.deep_view(), id@),
    {
        let n = list.len();
        let mut i: usize = 0;
        proof {
            assert(list.deep_view().skip(0) =~= list.deep_view());
        }
        while i < n
            invariant
                n == list.len(),
                0 <= i <= n,
                spec_resolve_list(list.deep_view(), id@) == spec_resolve_list(
                    list.deep_view().skip(i as int),
                    id@,
                ),
            decreases n - i,
        {
            let ghost rest = list.deep_view().skip(i as int);
            proof {
                assert(rest[0] == list.deep_view()[i as int]);
                assert(rest.drop_first() =~= list.deep_view().skip(i + 1));
            }
            let entry = &list[i];
            let mut found: Option<u32> = None;
            if starts_with(entry.as_str(), id) {
                if let Some(at) = split_once(entry.as_str(), '@') {
                    if let Some(dot) = split_once(at.1.as_str(), '.') {
                        if let Some(v) = parse_u32(dot.0.as_str()) {
                            found = Some(v);
                        }
                    }
                }
            }
            if let Some(v) = found {
                return Some(v);
            }
            proof {
                assert(spec_candidate_major(list.deep_view()[i as int], id@) is None);
            }
            i += 1;
        }
        proof {
            assert(list.deep_view().skip(n as int) =~= Seq::<Seq<char>>::empty());
        }
        None
    }
}

impl PluginDependency {
    /// Whether this dependency names the platform API, up to ASCII case.
    pub fn is_sponge_dep(&self) -> (r: bool)
        ensures
            r == spec_is_sponge_dep(self@),
    {
        eq_ignore_ascii_case(self.id.as_str(), "spongeapi")
    }

    /// The major version this dependency declares, `0` when it does not
    /// parse.
    pub fn major_api_version(&self) -> (r: u32)
        ensures
            r == spec_dep_major(self@),
    {
        match split_once(self.version.as_str(), '.') {
            Some(dot) => match parse_u32(dot.0.as_str()) {
                Some(v) => v,
                None => 0,
            },
            None => 0,
        }
    }
}

/// Clones a structured dependency list element by element.
fn clone_deps(list: &Vec<PluginDependency>) -> (r: Vec<PluginDependency>)
    ensures
        r@ == list@,
{
    let mut out: Vec<PluginDependency> = Vec::new();
    let n = list.len();
    let mut i: usize = 0;
    while i < n
        invariant
            n == list.len(),
            0 <= i <= n,
            out@ =~= list@.subrange(0, i as int),
        decreases n - i,
    {
        let d = &list[i];
        out.push(PluginDependency { id: d.id.clone(), version: d.version.clone() });
        proof {
            assert(out@ =~= list@.subrange(0, i + 1));
        }
        i += 1;
    }
    proof {
        assert(list@.subrange(0, n as int) =~= list@);
    }
    out
}

/// Scans a structured dependency list for the first platform-API entry and
/// returns the major version it declares, `0` when there is none.
fn first_sponge_major(list: &Vec<PluginDependency>) -> (r: u32)
    ensures
        r == match spec_first_sponge(list.deep_view()) {
            Some(d) => spec_dep_major(d),
            None => 0,
        },
{
    let n = list.len();
    let mut i: usize = 0;
    proof {
        assert(list.deep_view().skip(0) =~= list.deep_view());
    }
    while i < n
        invariant
            n == list.len(),
            0 <= i <= n,
            spec_first_sponge(list.deep_view()) == spec_first_sponge(
                list.deep_view().skip(i as int),
            ),
        decreases n - i,
    {
        let ghost rest = list.deep_view().skip(i as int);
        proof {
            assert(rest[0] == list.deep_view()[i as int]);
            assert(rest.drop_first() =~= list.deep_view().skip(i + 1));
        }
        let d = &list[i];
        if d.is_sponge_dep() {
            return d.major_api_version();
        }
        i += 1;
    }
    proof {
        assert(list.deep_view().skip(n as int) =~= Seq::<PluginDependencyView>::empty());
    }
    0
}

impl PluginInfo {
    /// The plugin record this file is about: its first entry, or an
    /// all-empty record when the file lists none.
    pub fn first_plugin(&self) -> (r: PluginData)
        ensures
            r@ == spec_first_plugin(self@),
    {
        if self.plugins.len() > 0 {
            let p = &self.plugins[0];
            let version = match &p.version {
                Some(v) => Some(v.clone()),
                None => None,
            };
            let out = PluginData {
                id: p.id.clone(),
                name: p.name.clone(),
                version,
                dependencies: clone_deps(&p.dependencies),
            };
            proof {
                assert(self.plugins.deep_view()[0] == self.plugins@[0].deep_view());
                assert(out@ =~= spec_first_plugin(self@));
            }
            out
        } else {
            let out = PluginData {
                id: String::new(),
                name: String::new(),
                version: None,
                dependencies: Vec::new(),
            };
            proof {
                assert(out@ =~= spec_first_plugin(self@));
            }
            out
        }
    }

    /// The platform major version this record declares: that of the first
    /// platform-API dependency of the list in effect, `0` when none matches.
    pub fn major_api_version(&self) -> (r: u32)
        ensures
            r == spec_plugin_major(self@),
    {
        match &self.global {
            Some(g) => first_sponge_major(&g.dependencies),
            None => {
                if self.plugins.len() > 0 {
                    first_sponge_major(&self.plugins[0].dependencies)
                } else {
                    0
                }
            },
        }
    }
}

/// Resolving the platform major version is a pure function of the record:
/// any two resolutions of the same record yield the same integer.
pub proof fn lemma_resolution_idempotent(m: McModInfoView, r1: u32, r2: u32)
    requires
        r1 == spec_sponge_tag(m),
        r2 == spec_sponge_tag(m),
    ensures
        r1 == r2,
{
}

/// Fallback ordering: when the `dependencies` list yields no major version,
/// resolution is decided by the `required_mods` list alone.
pub proof fn lemma_fallback_ordering(m: McModInfoView)
    requires
        spec_resolve_list(m.dependencies, spec_platform_id()) is None,
    ensures
        spec_resolve_legacy(m) == spec_resolve_list(m.required_mods, spec_platform_id()),
        spec_sponge_tag(m) == match spec_resolve_list(m.required_mods, spec_platform_id()) {
            Some(v) => v,
            None => 0u32,
        },
{
}

/// First successfully parsed candidate wins: if entry `i` yields a major
/// version and no earlier entry does, resolution returns entry `i`'s value,
/// whether or not earlier entries matched the identifier.
pub proof fn lemma_first_parsed_wins(list: Seq<Seq<char>>, id: Seq<char>, i: int)
    requires
        0 <= i < list.len(),
        spec_candidate_major(list[i], id) is Some,
        forall|j: int| 0 <= j < i ==> spec_candidate_major(list[j], id) is None,
    ensures
        spec_resolve_list(list, id) == spec_candidate_major(list[i], id),
    decreases i,
{
    if i == 0 {
    } else {
        assert(spec_candidate_major(list[0], id) is None);
        assert(list.drop_first()[i - 1] == list[i]);
        assert(forall|j: int|
            0 <= j < i - 1 ==> #[trigger] spec_candidate_major(list.drop_first()[j], id)
                == spec_candidate_major(list[j + 1], id));
        lemma_first_parsed_wins(list.drop_first(), id, i - 1);
    }
}

} // verus!
