//! The records the Ore registry's API serves, and the matching of a
//! project's promoted versions against a requested platform-API major
//! version. Timestamps are carried as plain strings; the library never
//! computes on them.

use vstd::prelude::*;

use crate::text::{
    contains_str, parse_u32, spec_contains_seq, spec_parse_u32, spec_split_once, split_once,
};

verus! {

broadcast use vstd::string::group_string_axioms;

/// A user's role on a project.
#[derive(Debug, Clone, PartialEq, Eq)]
pub struct Role {
    pub name: String,
    pub title: String,
    pub color: String,
}

/// The category a project is filed under.
#[derive(Debug, Clone, PartialEq, Eq)]
pub enum Category {
    AdminTools,
    Chat,
    DevTools,
    Economy,
    Gameplay,
    Games,
    Protection,
    RolePlaying,
    WorldManagement,
    Misc,
}

/// A project's license.
#[derive(Debug, Clone, PartialEq, Eq)]
pub struct ProjectLicense {
    pub name: Option<String>,
    pub url: Option<String>,
}

/// An API key the registry has just created.
#[derive(Debug, Clone, PartialEq, Eq)]
pub struct CreatedApiKey {
    pub key: String,
    pub perms: Vec<String>,
}

/// The outcome of a permission check.
#[derive(Debug, Clone, PartialEq, Eq)]
pub struct PermissionCheck {
    pub kind: String,
    pub result: bool,
}

/// The foreground and background colors of a version tag.
#[derive(Debug, Clone, PartialEq, Eq)]
pub struct VersionTagColor {
    pub foreground: String,
    pub background: String,
}

/// A descriptive tag on a promoted version. For the tag whose name contains
/// `"Sponge"`, `display_data` encodes the platform-API major version as a
/// leading dot-separated integer.
#[derive(Debug, Clone, PartialEq, Eq)]
pub struct PromotedVersionTag {
    pub name: String,
    pub data: Option<String>,
    pub display_data: Option<String>,
    pub minecraft_version: Option<String>,
    pub color: VersionTagColor,
}

/// One entry of a project's promoted-version list.
#[derive(Debug, Clone, PartialEq, Eq)]
pub struct PromotedVersion {
    pub version: String,
    pub tags: Vec<PromotedVersionTag>,
}

/// A project's namespace: who owns it and its URL slug.
#[derive(Debug, Clone, PartialEq, Eq)]
pub struct ProjectNamespace {
    pub owner: String,
    pub slug: String,
}

/// Lifetime statistics of a project.
#[derive(Debug, Clone, PartialEq, Eq)]
pub struct ProjectStatsAll {
    pub views: i64,
    pub downloads: i64,
    pub recent_views: i64,
    pub recent_downloads: i64,
    pub stars: i64,
    pub watchers: i64,
}

/// One day of project statistics.
#[derive(Debug, Clone, PartialEq, Eq)]
pub struct ProjectStatsDay {
    pub downloads: i64,
    pub view: i64,
}

/// Whether the requesting user starred or watches a project.
#[derive(Debug, Clone, PartialEq, Eq)]
pub struct UserActions {
    pub starred: bool,
    pub watching: bool,
}

/// A project's settings.
#[derive(Debug, Clone, PartialEq, Eq)]
pub struct ProjectSettings {
    pub homepage: Option<String>,
    pub issues: Option<String>,
    pub sources: Option<String>,
    pub license: ProjectLicense,
    pub forum_sync: bool,
}

/// A project as the registry serves it.
#[derive(Debug, Clone, PartialEq, Eq)]
pub struct Project {
    pub created_at: String,
    pub plugin_id: String,
    pub name: String,
    pub namespace: ProjectNamespace,
    pub promoted_versions: Vec<PromotedVersion>,
    pub stats: ProjectStatsAll,
    pub category: Category,
    pub description: String,
    pub last_updated: String,
    pub visibility: String,
    pub user_actions: UserActions,
    pub settings: ProjectSettings,
    pub icon_url: String,
}

/// A compact project listing.
#[derive(Debug, Clone, PartialEq, Eq)]
pub struct CompactProject {
    pub plugin_id: String,
    pub name: String,
    pub namespace: ProjectNamespace,
    pub promoted_versions: Vec<PromotedVersion>,
    pub stats: ProjectStatsAll,
    pub category: Category,
    pub visibility: String,
}

/// The permissions an API key holds.
#[derive(Debug, Clone, PartialEq, Eq)]
pub struct KeyPermissions {
    pub kind: String,
    pub permissions: Vec<String>,
}

/// Properties requested for an API session.
#[derive(Debug, Clone, PartialEq, Eq)]
pub struct ApiSessionProperties {
    pub expires_in: Option<i64>,
}

/// A registry user.
#[derive(Debug, Clone, PartialEq, Eq)]
pub struct User {
    pub created_at: String,
    pub name: String,
    pub tagline: Option<String>,
    pub join_date: Option<String>,
    pub roles: Vec<Role>,
}

/// A dependency of a published version.
#[derive(Debug, Clone, PartialEq, Eq)]
pub struct VersionDependency {
    pub plugin_id: String,
    pub version: Option<String>,
}

/// A request to create an API key.
#[derive(Debug, Clone, PartialEq, Eq)]
pub struct KeyToCreate {
    pub name: String,
    pub permissions: Vec<String>,
}

/// Paging information of a list response.
#[derive(Debug, Clone, PartialEq, Eq)]
pub struct Pagination {
    pub limit: i64,
    pub offset: i64,
    pub count: i64,
}

/// A page of projects.
#[derive(Debug, Clone, PartialEq, Eq)]
pub struct PaginatedProjectResult {
    pub pagination: Pagination,
    pub result: Vec<Project>,
}

/// A page of compact projects.
#[derive(Debug, Clone, PartialEq, Eq)]
pub struct PaginatedCompactProjectResult {
    pub pagination: Pagination,
    pub result: Vec<CompactProject>,
}

/// A request to publish a version.
#[derive(Debug, Clone, PartialEq, Eq)]
pub struct DeployVersionInfo {
    pub create_forum_post: bool,
    pub description: String,
}

/// A descriptive tag on a published version.
#[derive(Debug, Clone, PartialEq, Eq)]
pub struct VersionTag {
    pub name: String,
    pub data: Option<String>,
    pub color: VersionTagColor,
}

/// Lifetime statistics of a published version.
#[derive(Debug, Clone, PartialEq, Eq)]
pub struct VersionStatsAll {
    pub downloads: i64,
}

/// One day of version statistics.
#[derive(Debug, Clone, PartialEq, Eq)]
pub struct VersionStatsDay {
    pub downloads: i64,
}

/// The file a published version ships, its size in bytes.
#[derive(Debug, Clone, PartialEq, Eq)]
pub struct FileInfo {
    pub name: String,
    pub size_bytes: i64,
    pub md_5_hash: Option<String>,
}

/// A published version of a project.
#[derive(Debug, Clone, PartialEq, Eq)]
pub struct Version {
    pub created_at: String,
    pub name: String,
    pub dependencies: Vec<VersionDependency>,
    pub visibility: String,
    pub description: Option<String>,
    pub stats: VersionStatsAll,
    pub file_info: FileInfo,
    pub author: Option<String>,
    pub review_state: String,
    pub tags: Vec<VersionTag>,
}

/// A page of published versions.
#[derive(Debug, Clone, PartialEq, Eq)]
pub struct PaginatedVersionResult {
    pub pagination: Pagination,
    pub result: Vec<Version>,
}

/// How a project listing may be sorted.
#[derive(Debug, Clone, PartialEq, Eq)]
pub enum ProjectSortingStrategy {
    Stars,
    Downloads,
    Views,
    Newest,
    Updated,
    OnlyRelevance,
    RecentDownloads,
    RecentViews,
}

/// A member of a project.
#[derive(Debug, Clone, PartialEq, Eq)]
pub struct ProjectMember {
    pub user: String,
    pub roles: Vec<Role>,
}

/// The session record the registry returns on authentication.
#[derive(Debug, Clone, PartialEq, Eq)]
pub struct ReturnedApiSession {
    pub session: String,
    pub expires: String,
    pub kind: String,
}

/// The session an authenticated client holds.
#[derive(Debug, Clone, PartialEq, Eq)]
pub struct OreSession {
    pub session_id: String,
    pub expires: String,
}

impl OreSession {
    /// Takes over the identifier and expiry of a freshly returned session.
    pub fn update(&mut self, response: ReturnedApiSession)
        ensures
            final(self).session_id == response.session,
            final(self).expires == response.expires,
    {
        self.session_id = response.session;
        self.expires = response.expires;
    }
}

#[verifier::ext_equal]
pub ghost struct VersionTagColorView {
    pub foreground: Seq<char>,
    pub background: Seq<char>,
}

#[verifier::ext_equal]
pub ghost struct PromotedVersionTagView {
    pub name: Seq<char>,
    pub data: Option<Seq<char>>,
    pub display_data: Option<Seq<char>>,
    pub minecraft_version: Option<Seq<char>>,
    pub color: VersionTagColorView,
}

#[verifier::ext_equal]
pub ghost struct PromotedVersionView {
    pub version: Seq<char>,
    pub tags: Seq<PromotedVersionTagView>,
}

impl View for VersionTagColor {
    type V = VersionTagColorView;

    open spec fn view(&self) -> VersionTagColorView {
        VersionTagColorView { foreground: self.foreground@, background: self.background@ }
    }
}

impl DeepView for VersionTagColor {
    type V = VersionTagColorView;

    open spec fn deep_view(&self) -> VersionTagColorView {
        self.view()
    }
}

impl View for PromotedVersionTag {
    type V = PromotedVersionTagView;

    open spec fn view(&self) -> PromotedVersionTagView {
        PromotedVersionTagView {
            name: self.name@,
            data: self.data.deep_view(),
            display_data: self.display_data.deep_view(),
            minecraft_version: self.minecraft_version.deep_view(),
            color: self.color@,
        }
    }
}

impl DeepView for PromotedVersionTag {
    type V = PromotedVersionTagView;

    open spec fn deep_view(&self) -> PromotedVersionTagView {
        self.view()
    }
}

impl View for PromotedVersion {
    type V = PromotedVersionView;

    open spec fn view(&self) -> PromotedVersionView {
        PromotedVersionView { version: self.version@, tags: self.tags.deep_view() }
    }
}

impl DeepView for PromotedVersion {
    type V = PromotedVersionView;

    open spec fn deep_view(&self) -> PromotedVersionView {
        self.view()
    }
}

/// The first tag whose name contains `"Sponge"`, if any.
pub open spec fn spec_first_sponge_tag(tags: Seq<PromotedVersionTagView>) -> Option<
    PromotedVersionTagView,
>
    decreases tags.len(),
{
    if tags.len() == 0 {
        None
    } else if spec_contains_seq(tags[0].name, "Sponge"@) {
        Some(tags[0])
    } else {
        spec_first_sponge_tag(tags.drop_first())
    }
}

/// The platform-API major version a promoted version is tagged with: the
/// leading dot-separated segment of the platform tag's `display_data`, `0`
/// whenever any step of that reading fails.
pub open spec fn spec_promoted_major(pv: PromotedVersionView) -> u32 {
    match spec_first_sponge_tag(pv.tags) {
        Some(tag) => match tag.display_data {
            Some(d) => match spec_split_once(d, '.') {
                Some(dot) => match spec_parse_u32(dot.0) {
                    Some(v) => v,
                    None => 0,
                },
                None => 0,
            },
            None => 0,
        },
        None => 0,
    }
}

/// The version label of the first promoted version tagged with `target`,
/// or the empty string when none is: the caller must treat that sentinel as
/// "no compatible remote version", not as an error.
pub open spec fn spec_version_from_tag(list: Seq<PromotedVersionView>, target: u32) -> Seq<char>
    decreases list.len(),
{
    if list.len() == 0 {
        Seq::empty()
    } else if spec_promoted_major(list[0]) == target {
        list[0].version
    } else {
        spec_version_from_tag(list.drop_first(), target)
    }
}

impl PromotedVersion {
    /// The platform-API major version this promoted version is tagged with,
    /// `0` when no usable tag is present.
    pub fn tagged_major(&self) -> (r: u32)
        ensures
            r == spec_promoted_major(self@),
    {
        let n = self.tags.len();
        let mut i: usize = 0;
        proof {
            assert(self.tags.deep_view().skip(0) =~= self.tags.deep_view());
        }
        while i < n
            invariant
                n == self.tags.len(),
                0 <= i <= n,
                spec_first_sponge_tag(self.tags.deep_view()) == spec_first_sponge_tag(
                    self.tags.deep_view().skip(i as int),
                ),
            decreases n - i,
        {
            let ghost rest = self.tags.deep_view().skip(i as int);
            proof {
                assert(rest[0] == self.tags.deep_view()[i as int]);
                assert(rest.drop_first() =~= self.tags.deep_view().skip(i + 1));
            }
            let tag = &self.tags[i];
            if contains_str(tag.name.as_str(), "Sponge") {
                let r = match &tag.display_data {
                    Some(d) => match split_once(d.as_str(), '.') {
                        Some(dot) => match parse_u32(dot.0.as_str()) {
                            Some(v) => v,
                            None => 0,
                        },
                        None => 0,
                    },
                    None => 0,
                };
                return r;
            }
            i += 1;
        }
        proof {
            assert(self.tags.deep_view().skip(n as int) =~= Seq::<PromotedVersionTagView>::empty());
        }
        0
    }
}

impl Project {
    /// The version label of the first promoted version tagged with
    /// `major_version`, or the empty string when none is.
    pub fn version_from_tag(&self, major_version: u32) -> (r: &str)
        ensures
            r@ == spec_version_from_tag(self.promoted_versions.deep_view(), major_version),
    {
        let n = self.promoted_versions.len();
        let mut i: usize = 0;
        proof {
            assert(self.promoted_versions.deep_view().skip(0)
                =~= self.promoted_versions.deep_view());
        }
        while i < n
            invariant
                n == self.promoted_versions.len(),
                0 <= i <= n,
                spec_version_from_tag(self.promoted_versions.deep_view(), major_version)
                    == spec_version_from_tag(
                    self.promoted_versions.deep_view().skip(i as int),
                    major_version,
                ),
            decreases n - i,
        {
            let ghost rest = self.promoted_versions.deep_view().skip(i as int);
            proof {
                assert(rest[0] == self.promoted_versions.deep_view()[i as int]);
                assert(rest.drop_first() =~= self.promoted_versions.deep_view().skip(i + 1));
            }
            let pv = &self.promoted_versions[i];
            if pv.tagged_major() == major_version {
                return pv.version.as_str();
            }
            i += 1;
        }
        proof {
            assert(self.promoted_versions.deep_view().skip(n as int) =~= Seq::<
                PromotedVersionView,
            >::empty());
            reveal_strlit("");
            assert(("")@ =~= Seq::<char>::empty());
        }
        ""
    }
}

/// Remote matching: if promoted version `i` is tagged with `target` and no
/// earlier one is, the matcher returns version `i`'s label.
pub proof fn lemma_remote_first_match(list: Seq<PromotedVersionView>, target: u32, i: int)
    requires
        0 <= i < list.len(),
        spec_promoted_major(list[i]) == target,
        forall|j: int| 0 <= j < i ==> spec_promoted_major(list[j]) != target,
    ensures
        spec_version_from_tag(list, target) == list[i].version,
    decreases i,
{
    if i == 0 {
    } else {
        assert(spec_promoted_major(list[0]) != target);
        assert(list.drop_first()[i - 1] == list[i]);
        assert(forall|j: int|
            0 <= j < i - 1 ==> #[trigger] spec_promoted_major(list.drop_first()[j])
                == spec_promoted_major(list[j + 1]));
        lemma_remote_first_match(list.drop_first(), target, i - 1);
    }
}

/// No-match sentinel: when no promoted version is tagged with `target`, the
/// matcher returns the empty string.
pub proof fn lemma_no_match_sentinel(list: Seq<PromotedVersionView>, target: u32)
    requires
        forall|i: int| 0 <= i < list.len() ==> spec_promoted_major(list[i]) != target,
    ensures
        spec_version_from_tag(list, target) == Seq::<char>::empty(),
    decreases list.len(),
{
    if list.len() == 0 {
    } else {
        assert(forall|j: int|
            0 <= j < list.len() - 1 ==> #[trigger] spec_promoted_major(list.drop_first()[j])
                == spec_promoted_major(list[j + 1]));
        lemma_no_match_sentinel(list.drop_first(), target);
    }
}

} // verus!
