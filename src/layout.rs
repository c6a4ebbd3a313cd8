//! What the module tables show: their column titles, the cells of each row,
//! and the page summary under them. Styling and printing are left to the
//! caller.
use vstd::prelude::*;
use vstd::string::*;
use crate::response::{ListModuleResponseRefs, ListModuleResponseRepository, ListModulesResponseNode,
    ListModulesResponseSearch};

verus! {

/// The characters of each string.
pub open spec fn texts(v: Seq<String>) -> Seq<Seq<char>> {
    v.map_values(|s: String| s@)
}

/// `x` when `shown`, nothing otherwise.
pub open spec fn shown_if(shown: bool, x: Seq<char>) -> Seq<Seq<char>> {
    if shown {
        seq![x]
    } else {
        Seq::empty()
    }
}

/// The text of an optional value; nothing when absent.
pub open spec fn text_or_empty(s: Option<String>) -> Seq<char> {
    match s {
        Some(t) => t@,
        None => Seq::empty(),
    }
}

pub open spec fn digit(d: nat) -> char {
    if d == 0 {
        '0'
    } else if d == 1 {
        '1'
    } else if d == 2 {
        '2'
    } else if d == 3 {
        '3'
    } else if d == 4 {
        '4'
    } else if d == 5 {
        '5'
    } else if d == 6 {
        '6'
    } else if d == 7 {
        '7'
    } else if d == 8 {
        '8'
    } else {
        '9'
    }
}

/// `n` written in decimal, without leading zeros.
pub open spec fn decimal(n: nat) -> Seq<char>
    decreases n,
{
    if n < 10 {
        seq![digit(n)]
    } else {
        decimal(n / 10) + seq![digit(n % 10)]
    }
}

/// The name of the newest tag of a listed repository; empty when it has none.
pub open spec fn latest_tag_text(node: ListModulesResponseNode) -> Seq<char> {
    if node.refs.nodes@.len() == 0 {
        Seq::empty()
    } else {
        node.refs.nodes@[0].name@
    }
}

/// The tag of the newest release of a listed repository; empty when it has
/// none.
pub open spec fn latest_release_text(node: ListModulesResponseNode) -> Seq<char> {
    if node.releases.nodes@.len() == 0 {
        Seq::empty()
    } else {
        node.releases.nodes@[0].tag_name@
    }
}

fn digit_text(d: u64) -> (r: &'static str)
    requires
        d < 10,
    ensures
        r@ == seq![digit(d as nat)],
{
    proof {
        reveal_strlit("0");
        reveal_strlit("1");
        reveal_strlit("2");
        reveal_strlit("3");
        reveal_strlit("4");
        reveal_strlit("5");
        reveal_strlit("6");
        reveal_strlit("7");
        reveal_strlit("8");
        reveal_strlit("9");
    }
    if d == 0 {
        "0"
    } else if d == 1 {
        "1"
    } else if d == 2 {
        "2"
    } else if d == 3 {
        "3"
    } else if d == 4 {
        "4"
    } else if d == 5 {
        "5"
    } else if d == 6 {
        "6"
    } else if d == 7 {
        "7"
    } else if d == 8 {
        "8"
    } else {
        "9"
    }
}

/// `n` in decimal.
pub fn decimal_text(n: u64) -> (r: String)
    ensures
        r@ == decimal(n as nat),
    decreases n,
{
    if n < 10 {
        String::from_str(digit_text(n))
    } else {
        let mut s = decimal_text(n / 10);
        s.append(digit_text(n % 10));
        s
    }
}

fn owned_or_empty(s: &Option<String>) -> (r: String)
    ensures
        r@ == text_or_empty(*s),
{
    match s {
        Some(t) => t.clone(),
        None => String::new(),
    }
}

/// The column titles of the module listing.
pub fn modules_table_titles(description: bool, url: bool) -> (r: Vec<String>)
    ensures
        texts(r@) == seq!["Name"@] + shown_if(description, "Description"@) + shown_if(url, "URL"@)
            + seq!["Latest Tag"@, "Latest Release"@],
{
    let mut titles: Vec<String> = Vec::new();
    titles.push(String::from_str("Name"));
    if description {
        titles.push(String::from_str("Description"));
    }
    if url {
        titles.push(String::from_str("URL"));
    }
    titles.push(String::from_str("Latest Tag"));
    titles.push(String::from_str("Latest Release"));
    assert(texts(titles@) =~= seq!["Name"@] + shown_if(description, "Description"@) + shown_if(
        url,
        "URL"@,
    ) + seq!["Latest Tag"@, "Latest Release"@]);
    titles
}

/// The cells of one row of the module listing.
pub fn modules_table_row(node: &ListModulesResponseNode, description: bool, url: bool) -> (r: Vec<
    String,
>)
    ensures
        texts(r@) == seq![node.name@] + shown_if(description, text_or_empty(node.description))
            + shown_if(url, node.url@) + seq![latest_tag_text(*node), latest_release_text(*node)],
{
    let mut cells: Vec<String> = Vec::new();
    cells.push(node.name.clone());
    if description {
        cells.push(owned_or_empty(&node.description));
    }
    if url {
        cells.push(node.url.clone());
    }
    let tag = if node.refs.nodes.len() == 0 {
        String::new()
    } else {
        node.refs.nodes[0].name.clone()
    };
    cells.push(tag);
    let release = if node.releases.nodes.len() == 0 {
        String::new()
    } else {
        node.releases.nodes[0].tag_name.clone()
    };
    cells.push(release);
    assert(texts(cells@) =~= seq![node.name@] + shown_if(description, text_or_empty(node.description))
        + shown_if(url, node.url@) + seq![latest_tag_text(*node), latest_release_text(*node)]);
    cells
}

/// The count of repositories dropped from a page; none when it was not
/// counted.
pub open spec fn filtered_count(search: ListModulesResponseSearch) -> u64 {
    match search.filtered_repository_count {
        Some(k) => k,
        None => 0,
    }
}

/// The summary under the module listing: its titles and its values. The
/// dropped count is shown only when some were dropped, the end cursor only when
/// there is a next page.
pub fn modules_footer(search: &ListModulesResponseSearch) -> (r: (Vec<String>, Vec<String>))
    ensures
        texts(r.0@) == seq!["Search Total"@] + shown_if(filtered_count(*search) > 0, "Filtered Repos"@)
            + shown_if(search.page_info.has_next_page, "End Cursor"@),
        texts(r.1@) == seq![decimal(search.repository_count as nat)] + shown_if(
            filtered_count(*search) > 0,
            decimal(filtered_count(*search) as nat),
        ) + shown_if(search.page_info.has_next_page, text_or_empty(search.page_info.end_cursor)),
{
    let filtered = match search.filtered_repository_count {
        Some(k) => k,
        None => 0,
    };
    let mut titles: Vec<String> = Vec::new();
    let mut values: Vec<String> = Vec::new();
    titles.push(String::from_str("Search Total"));
    values.push(decimal_text(search.repository_count));
    if filtered > 0 {
        titles.push(String::from_str("Filtered Repos"));
        values.push(decimal_text(filtered));
    }
    if search.page_info.has_next_page {
        titles.push(String::from_str("End Cursor"));
        values.push(owned_or_empty(&search.page_info.end_cursor));
    }
    assert(texts(titles@) =~= seq!["Search Total"@] + shown_if(filtered > 0, "Filtered Repos"@)
        + shown_if(search.page_info.has_next_page, "End Cursor"@));
    assert(texts(values@) =~= seq![decimal(search.repository_count as nat)] + shown_if(
        filtered > 0,
        decimal(filtered as nat),
    ) + shown_if(search.page_info.has_next_page, text_or_empty(search.page_info.end_cursor)));
    (titles, values)
}

/// The column titles of the table of one module: the tag and release columns
/// only when there is a tag or a release.
pub fn module_table_titles(description: bool, url: bool, has_tags: bool, has_releases: bool) -> (r:
    Vec<String>)
    ensures
        texts(r@) == seq!["Name"@] + shown_if(description, "Description"@) + shown_if(url, "URL"@)
            + shown_if(has_tags, "Latest Tag"@) + shown_if(has_releases, "Latest Release"@),
{
    let mut titles: Vec<String> = Vec::new();
    titles.push(String::from_str("Name"));
    if description {
        titles.push(String::from_str("Description"));
    }
    if url {
        titles.push(String::from_str("URL"));
    }
    if has_tags {
        titles.push(String::from_str("Latest Tag"));
    }
    if has_releases {
        titles.push(String::from_str("Latest Release"));
    }
    assert(texts(titles@) =~= seq!["Name"@] + shown_if(description, "Description"@) + shown_if(
        url,
        "URL"@,
    ) + shown_if(has_tags, "Latest Tag"@) + shown_if(has_releases, "Latest Release"@));
    titles
}

/// The one row of the table of a module: the newest tag and release, when
/// there are any, come first in their lists.
pub fn module_table_row(repository: &ListModuleResponseRepository, description: bool, url: bool) -> (r:
    Vec<String>)
    ensures
        texts(r@) == seq![repository.name@] + shown_if(
            description,
            text_or_empty(repository.description),
        ) + shown_if(url, repository.url@) + shown_if(
            repository.refs.edges@.len() > 0,
            repository.refs.edges@[0].node.name@,
        ) + shown_if(
            repository.releases.edges@.len() > 0,
            repository.releases.edges@[0].node.name@,
        ),
{
    let mut cells: Vec<String> = Vec::new();
    cells.push(repository.name.clone());
    if description {
        cells.push(owned_or_empty(&repository.description));
    }
    if url {
        cells.push(repository.url.clone());
    }
    if repository.refs.edges.len() > 0 {
        cells.push(repository.refs.edges[0].node.name.clone());
    }
    if repository.releases.edges.len() > 0 {
        cells.push(repository.releases.edges[0].node.name.clone());
    }
    assert(texts(cells@) =~= seq![repository.name@] + shown_if(
        description,
        text_or_empty(repository.description),
    ) + shown_if(url, repository.url@) + shown_if(
        repository.refs.edges@.len() > 0,
        repository.refs.edges@[0].node.name@,
    ) + shown_if(
        repository.releases.edges@.len() > 0,
        repository.releases.edges@[0].node.name@,
    ));
    cells
}

/// The names of a module's tags on this page, in their order.
pub fn tag_names(refs: &ListModuleResponseRefs) -> (r: Vec<String>)
    ensures
        r@.len() == refs.edges@.len(),
        forall|i: int| 0 <= i < r@.len() ==> #[trigger] r@[i]@ == refs.edges@[i].node.name@,
{
    let mut names: Vec<String> = Vec::new();
    let mut i: usize = 0;
    while i < refs.edges.len()
        invariant
            i <= refs.edges@.len(),
            names@.len() == i,
            forall|j: int| 0 <= j < i ==> #[trigger] names@[j]@ == refs.edges@[j].node.name@,
        decreases refs.edges@.len() - i,
    {
        names.push(refs.edges[i].node.name.clone());
        i = i + 1;
    }
    names
}

/// The summary under the tag table: the total number of tags and, when there
/// is a next page, the cursor to continue after.
pub fn tags_footer(refs: &ListModuleResponseRefs) -> (r: (Vec<String>, Vec<String>))
    ensures
        texts(r.0@) == seq!["Tags Total"@] + shown_if(refs.page_info.has_next_page, "End Cursor"@),
        texts(r.1@) == seq![decimal(refs.total_count as nat)] + shown_if(
            refs.page_info.has_next_page,
            text_or_empty(refs.page_info.end_cursor),
        ),
{
    let mut titles: Vec<String> = Vec::new();
    let mut values: Vec<String> = Vec::new();
    titles.push(String::from_str("Tags Total"));
    values.push(decimal_text(refs.total_count));
    if refs.page_info.has_next_page {
        titles.push(String::from_str("End Cursor"));
        values.push(owned_or_empty(&refs.page_info.end_cursor));
    }
    assert(texts(titles@) =~= seq!["Tags Total"@] + shown_if(
        refs.page_info.has_next_page,
        "End Cursor"@,
    ));
    assert(texts(values@) =~= seq![decimal(refs.total_count as nat)] + shown_if(
        refs.page_info.has_next_page,
        text_or_empty(refs.page_info.end_cursor),
    ));
    (titles, values)
}

} // verus!
