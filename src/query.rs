//! Requests to the provider: a query document with its variables kept apart,
//! so that organisation, provider and module names never become query text.
use vstd::prelude::*;
use vstd::string::*;
use crate::naming::{conforms, constraint_view, module_repo_name};

verus! {

/// Page size of the organisation-wide listing when none is given.
pub const DEFAULT_SEARCH_PAGE_SIZE: usize = 30;

/// Page size of a module's release and tag lists when none is given.
pub const DEFAULT_LOOKUP_PAGE_SIZE: usize = 3;

/// The organisation-wide search; its variables are `search`, `first` and
/// `after`.
pub const SEARCH_DOCUMENT: &'static str = "query($search: String!, $first: Int!, $after: String) {
  search(query: $search, type: REPOSITORY, first: $first, after: $after) {
    pageInfo { hasNextPage endCursor hasPreviousPage startCursor }
    repositoryCount
    nodes {
      ... on Repository {
        name
        description
        url
        releases(last: 1) { nodes { tagName publishedAt } }
        refs(refPrefix: \"refs/tags/\", last: 1) { nodes { name } }
      }
    }
  }
}";

/// The lookup of one repository; its variables are `owner`, `name`, `first`
/// and `after`.
pub const LOOKUP_DOCUMENT: &'static str = "query($owner: String!, $name: String!, $first: Int!, $after: String) {
  repository(owner: $owner, name: $name) {
    name
    description
    url
    releases(first: $first, after: $after, orderBy: {field: CREATED_AT, direction: DESC}) {
      edges { node { name } }
      pageInfo { endCursor hasNextPage startCursor hasPreviousPage }
      totalCount
    }
    refs(refPrefix: \"refs/tags/\", first: $first, after: $after, orderBy: {field: TAG_COMMIT_DATE, direction: DESC}) {
      edges { node { name } }
      pageInfo { endCursor hasNextPage startCursor hasPreviousPage }
      totalCount
    }
  }
}";

/// The variables of the organisation-wide search.
#[derive(Debug, Clone, PartialEq, Eq)]
pub struct SearchQuery {
    pub search: String,
    pub first: usize,
    pub after: Option<String>,
}

/// The variables of the lookup of one module.
#[derive(Debug, Clone, PartialEq, Eq)]
pub struct LookupQuery {
    pub owner: String,
    pub name: String,
    pub first: usize,
    pub after: Option<String>,
}

/// Why no request was built.
#[derive(Debug, Clone, Copy, PartialEq, Eq)]
pub enum QueryError {
    /// A page size of zero was asked for.
    ZeroPageSize,
}

/// `<provider>-` under a provider constraint, nothing without one.
pub open spec fn provider_segment(provider: Option<Seq<char>>) -> Seq<char> {
    match provider {
        Some(p) => p + seq!['-'],
        None => Seq::empty(),
    }
}

/// The search predicate: repositories of `org` whose names hold
/// `terraform-<provider>-module`, or `terraform-module` without a provider.
pub open spec fn search_text(org: Seq<char>, provider: Option<Seq<char>>) -> Seq<char> {
    "terraform-"@ + provider_segment(provider) + "module in:name user:"@ + org
}

/// The repository name that the lookup of `module` asks for.
pub open spec fn lookup_name(provider: Option<Seq<char>>, module: Seq<char>) -> Seq<char> {
    "terraform-"@ + provider_segment(provider) + module + "-module"@
}

pub open spec fn page_size_or(first: Option<usize>, default: usize) -> usize {
    match first {
        Some(f) => f,
        None => default,
    }
}

/// Under a provider constraint, the repository that a lookup asks for is one
/// that the naming convention accepts for that provider, with the module as its
/// short name: the remote filter and the local one agree.
pub proof fn lemma_lookup_name_conforms(provider: Seq<char>, module: Seq<char>)
    requires
        module.len() > 0,
    ensures
        lookup_name(Some(provider), module) == module_repo_name(provider, module),
        conforms(lookup_name(Some(provider), module), Some(provider)),
{
    assert(lookup_name(Some(provider), module) =~= module_repo_name(provider, module));
    assert(module.len() > 0 && lookup_name(Some(provider), module) == module_repo_name(
        provider,
        module,
    ));
}

/// Appends `terraform-` and, under a provider constraint, `<provider>-`.
fn push_name_start(text: &mut String, provider: &Option<String>)
    ensures
        final(text)@ == old(text)@ + "terraform-"@ + provider_segment(constraint_view(*provider)),
{
    let ghost before = text@;
    text.append("terraform-");
    match provider {
        Some(p) => {
            text.append(p.as_str());
            text.append("-");
            proof {
                reveal_strlit("-");
            }
        },
        None => {},
    }
    assert(text@ =~= before + "terraform-"@ + provider_segment(constraint_view(*provider)));
}

/// The variables of the organisation-wide search for modules of `org`, under
/// the provider constraint if there is one, `first` to a page, after the
/// cursor `after` if there is one.
pub fn build_search_query(
    org: &str,
    provider: &Option<String>,
    first: Option<usize>,
    after: Option<String>,
) -> (r: Result<SearchQuery, QueryError>)
    ensures
        r is Err <==> first == Some(0usize),
        r matches Err(e) ==> e == QueryError::ZeroPageSize,
        r matches Ok(q) ==> {
            &&& q.search@ == search_text(org@, constraint_view(*provider))
            &&& q.first == page_size_or(first, DEFAULT_SEARCH_PAGE_SIZE)
            &&& q.after == after
        },
{
    let size = match first {
        Some(f) => f,
        None => DEFAULT_SEARCH_PAGE_SIZE,
    };
    if size == 0 {
        return Err(QueryError::ZeroPageSize);
    }
    let mut search = String::new();
    push_name_start(&mut search, provider);
    search.append("module in:name user:");
    search.append(org);
    proof {
        assert(search@ =~= search_text(org@, constraint_view(*provider)));
    }
    Ok(SearchQuery { search, first: size, after })
}

/// The variables of the lookup of module `module` of `org`, under the provider
/// constraint if there is one, with `first` releases and tags to a page, after
/// the cursor `after` if there is one.
pub fn build_lookup_query(
    org: &str,
    provider: &Option<String>,
    module: &str,
    first: Option<usize>,
    after: Option<String>,
) -> (r: Result<LookupQuery, QueryError>)
    ensures
        r is Err <==> first == Some(0usize),
        r matches Err(e) ==> e == QueryError::ZeroPageSize,
        r matches Ok(q) ==> {
            &&& q.owner@ == org@
            &&& q.name@ == lookup_name(constraint_view(*provider), module@)
            &&& q.first == page_size_or(first, DEFAULT_LOOKUP_PAGE_SIZE)
            &&& q.after == after
        },
{
    let size = match first {
        Some(f) => f,
        None => DEFAULT_LOOKUP_PAGE_SIZE,
    };
    if size == 0 {
        return Err(QueryError::ZeroPageSize);
    }
    let mut name = String::new();
    push_name_start(&mut name, provider);
    name.append(module);
    name.append("-module");
    proof {
        assert(name@ =~= lookup_name(constraint_view(*provider), module@));
    }
    Ok(LookupQuery { owner: String::from_str(org), name, first: size, after })
}

} // verus!
