//! The records that the provider's answer decodes into: the organisation-wide
//! search (`ListModules...`) and the lookup of one module (`ListModule...`).
use vstd::prelude::*;

verus! {

/// Where a page of search results stands; the cursors are opaque.
#[derive(Debug, Clone, PartialEq, Eq)]
pub struct ListModulesResponsePageInfo {
    pub has_next_page: bool,
    pub end_cursor: Option<String>,
    pub has_previous_page: bool,
    pub start_cursor: Option<String>,
}

/// The latest release of a repository in the search listing.
#[derive(Debug, Clone, PartialEq, Eq)]
pub struct ListModulesResponseRelease {
    pub tag_name: String,
    pub published_at: String,
}

/// At most one release: the most recent.
#[derive(Debug, Clone, PartialEq, Eq)]
pub struct ListModulesResponseReleases {
    pub nodes: Vec<ListModulesResponseRelease>,
}

/// A tag of a repository in the search listing.
#[derive(Debug, Clone, PartialEq, Eq)]
pub struct ListModulesResponseRef {
    pub name: String,
}

/// At most one tag: the most recent.
#[derive(Debug, Clone, PartialEq, Eq)]
pub struct ListModulesResponseRefs {
    pub nodes: Vec<ListModulesResponseRef>,
}

/// One repository found by the search.
#[derive(Debug, Clone, PartialEq, Eq)]
pub struct ListModulesResponseNode {
    pub name: String,
    pub description: Option<String>,
    pub url: String,
    pub releases: ListModulesResponseReleases,
    pub refs: ListModulesResponseRefs,
}

/// One page of the search. `repository_count` is the provider's total for the
/// query; `filtered_repository_count` is how many repositories of this page
/// were dropped for not following the naming convention.
#[derive(Debug, Clone, PartialEq, Eq)]
pub struct ListModulesResponseSearch {
    pub page_info: ListModulesResponsePageInfo,
    pub repository_count: u64,
    pub filtered_repository_count: Option<u64>,
    pub nodes: Vec<ListModulesResponseNode>,
}

#[derive(Debug, Clone, PartialEq, Eq)]
pub struct ListModulesResponseData {
    pub search: ListModulesResponseSearch,
}

/// The answer to an organisation-wide search.
#[derive(Debug, Clone, PartialEq, Eq)]
pub struct ListModulesResponse {
    pub data: ListModulesResponseData,
}

#[derive(Debug, Clone, PartialEq, Eq)]
pub struct ListModuleResponseReleaseNode {
    pub name: String,
}

#[derive(Debug, Clone, PartialEq, Eq)]
pub struct ListModuleResponseRefNode {
    pub name: String,
}

/// An edge of the paginated release list.
#[derive(Debug, Clone, PartialEq, Eq)]
pub struct ListModuleResponseRelease {
    pub node: ListModuleResponseReleaseNode,
}

/// An edge of the paginated tag list.
#[derive(Debug, Clone, PartialEq, Eq)]
pub struct ListModuleResponseRef {
    pub node: ListModuleResponseRefNode,
}

#[derive(Debug, Clone, PartialEq, Eq)]
pub struct ListModuleResponseReleasesPageInfo {
    pub has_next_page: bool,
    pub end_cursor: Option<String>,
    pub has_previous_page: bool,
    pub start_cursor: Option<String>,
}

#[derive(Debug, Clone, PartialEq, Eq)]
pub struct ListModuleResponseRefsPageInfo {
    pub has_next_page: bool,
    pub end_cursor: Option<String>,
    pub has_previous_page: bool,
    pub start_cursor: Option<String>,
}

/// A page of a module's releases, newest first, with the total count.
#[derive(Debug, Clone, PartialEq, Eq)]
pub struct ListModuleResponseReleases {
    pub edges: Vec<ListModuleResponseRelease>,
    pub page_info: ListModuleResponseReleasesPageInfo,
    pub total_count: u64,
}

/// A page of a module's tags, newest first, with the total count.
#[derive(Debug, Clone, PartialEq, Eq)]
pub struct ListModuleResponseRefs {
    pub edges: Vec<ListModuleResponseRef>,
    pub page_info: ListModuleResponseRefsPageInfo,
    pub total_count: u64,
}

/// The repository of one module.
#[derive(Debug, Clone, PartialEq, Eq)]
pub struct ListModuleResponseRepository {
    pub name: String,
    pub description: Option<String>,
    pub url: String,
    pub releases: ListModuleResponseReleases,
    pub refs: ListModuleResponseRefs,
}

#[derive(Debug, Clone, PartialEq, Eq)]
pub struct ListModuleResponseData {
    pub repository: ListModuleResponseRepository,
}

/// The answer to the lookup of one module.
#[derive(Debug, Clone, PartialEq, Eq)]
pub struct ListModuleResponse {
    pub data: ListModuleResponseData,
}

} // verus!
