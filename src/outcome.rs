//! What a finished request comes to: a page of modules, one module, or a typed
//! failure, never a part of a page.
use vstd::prelude::*;
use crate::naming::constraint_view;
use crate::response::{ListModuleResponse, ListModuleResponseData, ListModuleResponseRepository,
    ListModulesResponse};
use crate::sift::{kept_nodes, sift_response};

verus! {

/// Why a request gave no result.
#[derive(Debug, Clone, PartialEq, Eq)]
pub enum ModuleError {
    /// The upstream call did not complete; the provider's diagnostic text.
    Transport(String),
    /// The answer did not have the expected shape; what the decoder reported.
    Malformed(String),
    /// The provider knows no repository of the requested name; that name.
    NotFound(String),
}

impl ModuleError {
    /// The message carried by the error.
    pub fn message(&self) -> (r: &String)
        ensures
            r == match self {
                ModuleError::Transport(m) => m,
                ModuleError::Malformed(m) => m,
                ModuleError::NotFound(m) => m,
            },
    {
        match self {
            ModuleError::Transport(m) => m,
            ModuleError::Malformed(m) => m,
            ModuleError::NotFound(m) => m,
        }
    }
}

/// Whether the upstream call completed: it exited with status zero.
pub open spec fn completed(status: Option<i32>) -> bool {
    status == Some(0i32)
}

/// `page` is `input` with only its conforming repositories, the count of the
/// others, and the same total and page info.
pub open spec fn sifted(
    input: ListModulesResponse,
    provider: Option<Seq<char>>,
    page: ListModulesResponse,
) -> bool {
    &&& page.data.search.nodes@ == kept_nodes(input.data.search.nodes@, provider)
    &&& page.data.search.filtered_repository_count == Some(
        (input.data.search.nodes@.len() - page.data.search.nodes@.len()) as u64,
    )
    &&& page.data.search.repository_count == input.data.search.repository_count
    &&& page.data.search.page_info == input.data.search.page_info
}

/// What an organisation-wide search comes to, given how the call ended, its
/// diagnostic text, and the decoded answer.
pub open spec fn settles_list_modules(
    status: Option<i32>,
    stderr: String,
    decoded: Result<ListModulesResponse, String>,
    provider: Option<Seq<char>>,
    r: Result<ListModulesResponse, ModuleError>,
) -> bool {
    if !completed(status) {
        r == Err::<ListModulesResponse, ModuleError>(ModuleError::Transport(stderr))
    } else {
        match decoded {
            Err(m) => r == Err::<ListModulesResponse, ModuleError>(ModuleError::Malformed(m)),
            Ok(input) => r matches Ok(page) && sifted(input, provider, page),
        }
    }
}

/// Two pages hold the same repositories, counts and page info.
pub open spec fn same_page(a: ListModulesResponse, b: ListModulesResponse) -> bool {
    &&& a.data.search.nodes@ == b.data.search.nodes@
    &&& a.data.search.filtered_repository_count == b.data.search.filtered_repository_count
    &&& a.data.search.repository_count == b.data.search.repository_count
    &&& a.data.search.page_info == b.data.search.page_info
}

/// Settling the same answer twice gives the same outcome: the same error, or
/// pages with the same repositories, counts and page info.
pub proof fn lemma_settle_deterministic(
    status: Option<i32>,
    stderr: String,
    decoded: Result<ListModulesResponse, String>,
    provider: Option<Seq<char>>,
    r1: Result<ListModulesResponse, ModuleError>,
    r2: Result<ListModulesResponse, ModuleError>,
)
    requires
        settles_list_modules(status, stderr, decoded, provider, r1),
        settles_list_modules(status, stderr, decoded, provider, r2),
    ensures
        r1 is Err ==> r1 == r2,
        r1 matches Ok(a) ==> r2 matches Ok(b) && same_page(a, b),
{
}

/// The result of an organisation-wide search. A call that did not complete
/// gives its diagnostic text, an answer that did not decode gives the
/// decoder's message, and a decoded page gives its conforming repositories
/// with the count of the others.
pub fn settle_list_modules(
    status: Option<i32>,
    stderr: String,
    decoded: Result<ListModulesResponse, String>,
    provider: &Option<String>,
) -> (r: Result<ListModulesResponse, ModuleError>)
    ensures
        settles_list_modules(status, stderr, decoded, constraint_view(*provider), r),
{
    if status != Some(0i32) {
        return Err(ModuleError::Transport(stderr));
    }
    match decoded {
        Err(m) => Err(ModuleError::Malformed(m)),
        Ok(page) => Ok(sift_response(page, provider)),
    }
}

/// The result of the lookup of repository `name`. A call that did not
/// complete gives its diagnostic text, an answer that did not decode gives the
/// decoder's message, an answer without a repository is "not found", and a
/// repository is returned whole, whatever its name.
pub fn settle_list_module(
    status: Option<i32>,
    stderr: String,
    decoded: Result<Option<ListModuleResponseRepository>, String>,
    name: String,
) -> (r: Result<ListModuleResponse, ModuleError>)
    ensures
        !completed(status) ==> r == Err::<ListModuleResponse, ModuleError>(
            ModuleError::Transport(stderr),
        ),
        completed(status) ==> match decoded {
            Err(m) => r == Err::<ListModuleResponse, ModuleError>(ModuleError::Malformed(m)),
            Ok(None) => r == Err::<ListModuleResponse, ModuleError>(ModuleError::NotFound(name)),
            Ok(Some(repository)) => r matches Ok(out) && out.data.repository == repository,
        },
{
    if status != Some(0i32) {
        return Err(ModuleError::Transport(stderr));
    }
    match decoded {
        Err(m) => Err(ModuleError::Malformed(m)),
        Ok(None) => Err(ModuleError::NotFound(name)),
        Ok(Some(repository)) => Ok(ListModuleResponse { data: ListModuleResponseData { repository } }),
    }
}

} // verus!
