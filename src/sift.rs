//! Keeps the repositories of a page that follow the naming convention, in the
//! provider's order, and counts the ones dropped.
use vstd::prelude::*;
use crate::naming::{conforms, constraint_view, parts_of, resolve};
use crate::response::{ListModulesResponse, ListModulesResponseData, ListModulesResponseNode,
    ListModulesResponseSearch};

verus! {

/// The nodes of `nodes` whose names conform, in their order.
pub open spec fn kept_nodes(nodes: Seq<ListModulesResponseNode>, provider: Option<Seq<char>>) -> Seq<
    ListModulesResponseNode,
>
    decreases nodes.len(),
{
    if nodes.len() == 0 {
        Seq::empty()
    } else {
        let rest = kept_nodes(nodes.drop_last(), provider);
        if conforms(nodes.last().name@, provider) {
            rest.push(nodes.last())
        } else {
            rest
        }
    }
}

/// Every kept node conforms, and there are never more kept nodes than nodes.
pub proof fn lemma_kept_conform(nodes: Seq<ListModulesResponseNode>, provider: Option<Seq<char>>)
    ensures
        kept_nodes(nodes, provider).len() <= nodes.len(),
        forall|j: int|
            0 <= j < kept_nodes(nodes, provider).len() ==> conforms(
                #[trigger] kept_nodes(nodes, provider)[j].name@,
                provider,
            ),
    decreases nodes.len(),
{
    if nodes.len() > 0 {
        lemma_kept_conform(nodes.drop_last(), provider);
    }
}

/// Filtering keeps order: the kept nodes are the conforming nodes of the
/// input, picked at strictly increasing positions, and every conforming node
/// of the input is picked.
pub proof fn lemma_filter_keeps_order(nodes: Seq<ListModulesResponseNode>, provider: Option<Seq<char>>) -> (idx: Seq<int>)
    ensures
        idx.len() == kept_nodes(nodes, provider).len(),
        forall|j: int|
            0 <= j < idx.len() ==> 0 <= #[trigger] idx[j] < nodes.len() && kept_nodes(
                nodes,
                provider,
            )[j] == nodes[idx[j]],
        forall|j: int, k: int| 0 <= j < k < idx.len() ==> idx[j] < idx[k],
        forall|i: int|
            0 <= i < nodes.len() && conforms(#[trigger] nodes[i].name@, provider) ==> exists|j: int|
                0 <= j < idx.len() && idx[j] == i,
    decreases nodes.len(),
{
    if nodes.len() == 0 {
        Seq::empty()
    } else {
        let pre = nodes.drop_last();
        let prev = lemma_filter_keeps_order(pre, provider);
        let last: int = nodes.len() - 1;
        if conforms(nodes.last().name@, provider) {
            let idx = prev.push(last);
            assert forall|i: int|
                0 <= i < nodes.len() && conforms(#[trigger] nodes[i].name@, provider) implies exists|j: int|
                0 <= j < idx.len() && idx[j] == i by {
                if i < last {
                    assert(pre[i] == nodes[i]);
                    let j = choose|j: int| 0 <= j < prev.len() && prev[j] == i;
                    assert(idx[j] == i);
                } else {
                    assert(idx[prev.len() as int] == i);
                }
            }
            idx
        } else {
            assert forall|i: int|
                0 <= i < nodes.len() && conforms(#[trigger] nodes[i].name@, provider) implies exists|j: int|
                0 <= j < prev.len() && prev[j] == i by {
                assert(i != last);
                assert(pre[i] == nodes[i]);
            }
            prev
        }
    }
}

/// A repository that follows the naming convention, with the parts of its
/// name.
#[derive(Debug, Clone, PartialEq, Eq)]
pub struct ModuleRecord {
    pub candidate: ListModulesResponseNode,
    pub provider: String,
    pub short_name: String,
}

/// The repositories of the records, in their order.
pub open spec fn candidates(records: Seq<ModuleRecord>) -> Seq<ListModulesResponseNode> {
    records.map_values(|r: ModuleRecord| r.candidate)
}

/// Each record holds the parts of its repository's name.
pub open spec fn records_resolved(records: Seq<ModuleRecord>, provider: Option<Seq<char>>) -> bool {
    forall|j: int|
        0 <= j < records.len() ==> parts_of(
            #[trigger] records[j].candidate.name@,
            provider,
            records[j].provider@,
            records[j].short_name@,
        )
}

/// Keeps the repositories whose names follow the naming convention under the
/// provider constraint, in their order, each with the parts of its name, and
/// counts the others.
pub fn filter(nodes: Vec<ListModulesResponseNode>, provider: &Option<String>) -> (r: (
    Vec<ModuleRecord>,
    u64,
))
    ensures
        candidates(r.0@) == kept_nodes(nodes@, constraint_view(*provider)),
        records_resolved(r.0@, constraint_view(*provider)),
        r.1 == (nodes@.len() - r.0@.len()) as u64,
        nodes@.len() <= u64::MAX ==> r.1 + r.0@.len() == nodes@.len(),
{
    let ghost all = nodes@;
    let ghost cv = constraint_view(*provider);
    let total = nodes.len();
    let mut rest = nodes;
    let mut kept: Vec<ModuleRecord> = Vec::new();
    let mut filtered: usize = 0;
    while rest.len() > 0
        invariant
            cv == constraint_view(*provider),
            all.len() == total,
            rest@ == all.subrange(all.len() - rest@.len(), all.len() as int),
            candidates(kept@) == kept_nodes(all.subrange(0, all.len() - rest@.len()), cv),
            records_resolved(kept@, cv),
            filtered + kept@.len() == all.len() - rest@.len(),
        decreases rest@.len(),
    {
        let ghost i: int = all.len() - rest@.len();
        let node = rest.remove(0);
        proof {
            assert(node == all[i]);
            assert(all.subrange(0, i + 1).drop_last() =~= all.subrange(0, i));
            assert(rest@ =~= all.subrange(i + 1, all.len() as int));
            lemma_kept_conform(all.subrange(0, i), cv);
        }
        match resolve(node.name.as_str(), provider) {
            Some(parts) => {
                let ghost before = kept@;
                kept.push(
                    ModuleRecord {
                        candidate: node,
                        provider: parts.provider,
                        short_name: parts.short_name,
                    },
                );
                assert(candidates(kept@) =~= candidates(before).push(node));
            },
            None => {
                filtered = filtered + 1;
            },
        }
    }
    proof {
        assert(all.subrange(0, all.len() as int) =~= all);
    }
    (kept, filtered as u64)
}

/// The page with only its conforming repositories, and with the count of the
/// ones dropped; the totals and the page info pass through unchanged.
pub fn sift_response(response: ListModulesResponse, provider: &Option<String>) -> (r:
    ListModulesResponse)
    ensures
        r.data.search.nodes@ == kept_nodes(
            response.data.search.nodes@,
            constraint_view(*provider),
        ),
        r.data.search.filtered_repository_count == Some(
            (response.data.search.nodes@.len() - r.data.search.nodes@.len()) as u64,
        ),
        r.data.search.repository_count == response.data.search.repository_count,
        r.data.search.page_info == response.data.search.page_info,
{
    let search = response.data.search;
    let (records, filtered) = filter(search.nodes, provider);
    let ghost kept = candidates(records@);
    let mut rest = records;
    let mut nodes: Vec<ListModulesResponseNode> = Vec::new();
    while rest.len() > 0
        invariant
            nodes@ + candidates(rest@) == kept,
        decreases rest@.len(),
    {
        let record = rest.remove(0);
        nodes.push(record.candidate);
    }
    ListModulesResponse {
        data: ListModulesResponseData {
            search: ListModulesResponseSearch {
                page_info: search.page_info,
                repository_count: search.repository_count,
                filtered_repository_count: Some(filtered),
                nodes,
            },
        },
    }
}

} // verus!
