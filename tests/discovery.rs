use gh_tf_mod::config::Config;
use gh_tf_mod::layout::{
    decimal_text, module_table_row, module_table_titles, modules_footer, modules_table_row,
    modules_table_titles, tag_names, tags_footer,
};
use gh_tf_mod::naming::resolve;
use gh_tf_mod::outcome::{settle_list_module, settle_list_modules, ModuleError};
use gh_tf_mod::query::{
    build_lookup_query, build_search_query, QueryError, DEFAULT_LOOKUP_PAGE_SIZE,
    DEFAULT_SEARCH_PAGE_SIZE, LOOKUP_DOCUMENT, SEARCH_DOCUMENT,
};
use gh_tf_mod::response::{
    ListModuleResponseRef, ListModuleResponseRefNode, ListModuleResponseRefs,
    ListModuleResponseRefsPageInfo, ListModuleResponseRelease, ListModuleResponseReleaseNode,
    ListModuleResponseReleases, ListModuleResponseReleasesPageInfo, ListModuleResponseRepository,
    ListModulesResponse, ListModulesResponseData, ListModulesResponseNode,
    ListModulesResponsePageInfo, ListModulesResponseRef, ListModulesResponseRefs,
    ListModulesResponseRelease, ListModulesResponseReleases, ListModulesResponseSearch,
};
use gh_tf_mod::sift::{filter, sift_response, ModuleRecord};
use regex::Regex;

fn node(name: &str) -> ListModulesResponseNode {
    ListModulesResponseNode {
        name: name.to_string(),
        description: Some(format!("about {}", name)),
        url: format!("https://github.com/acme/{}", name),
        releases: ListModulesResponseReleases { nodes: vec![] },
        refs: ListModulesResponseRefs { nodes: vec![] },
    }
}

fn page_info(has_next_page: bool, end_cursor: Option<&str>) -> ListModulesResponsePageInfo {
    ListModulesResponsePageInfo {
        has_next_page,
        end_cursor: end_cursor.map(|c| c.to_string()),
        has_previous_page: false,
        start_cursor: None,
    }
}

fn page(names: &[&str], info: ListModulesResponsePageInfo) -> ListModulesResponse {
    ListModulesResponse {
        data: ListModulesResponseData {
            search: ListModulesResponseSearch {
                page_info: info,
                repository_count: 42,
                filtered_repository_count: None,
                nodes: names.iter().map(|n| node(n)).collect(),
            },
        },
    }
}

fn names_of(nodes: &[ListModulesResponseNode]) -> Vec<String> {
    nodes.iter().map(|n| n.name.clone()).collect()
}

fn record_names(records: &[ModuleRecord]) -> Vec<String> {
    records.iter().map(|r| r.candidate.name.clone()).collect()
}

fn record_parts(records: &[ModuleRecord]) -> Vec<(String, String)> {
    records.iter().map(|r| (r.provider.clone(), r.short_name.clone())).collect()
}

fn split(name: &str, provider: Option<&str>) -> Option<(String, String)> {
    resolve(name, &provider.map(|p| p.to_string())).map(|m| (m.provider, m.short_name))
}

fn pair(p: &str, s: &str) -> Option<(String, String)> {
    Some((p.to_string(), s.to_string()))
}

#[test]
fn resolve_splits_provider_and_short_name() {
    assert_eq!(split("terraform-aws-s3-module", None), pair("aws", "s3"));
    assert_eq!(split("terraform-gcp-bigquery-module", None), pair("gcp", "bigquery"));
    assert_eq!(split("terraform-aws-s3-bucket-module", None), pair("aws", "s3-bucket"));
    assert_eq!(split("terraform-aws-a-module-module", None), pair("aws", "a-module"));
}

#[test]
fn resolve_rejects_names_off_the_convention() {
    for name in [
        "",
        "terraform-vpc",
        "terraform-aws-module",
        "terraform--s3-module",
        "terraform-aws--module",
        "terraform-aws-s3-modules",
        "xterraform-aws-s3-module",
        "terraform-aws-s3-module ",
        "Terraform-aws-s3-module",
        "terraform-aws-s3",
    ] {
        assert_eq!(split(name, None), None, "{}", name);
    }
}

#[test]
fn resolve_agrees_with_the_convention_pattern() {
    let re = Regex::new(r"(?s)^terraform-([^-]+)-(.+)-module$").unwrap();
    let names = [
        "terraform-aws-s3-module",
        "terraform-aws-s3-bucket-module",
        "terraform-a-b-module",
        "terraform-a--module",
        "terraform-a---module",
        "terraform--a-b-module",
        "terraform-aws-module",
        "terraform-aws-module-module",
        "terraform-x-y-z-w-module",
        "terraform-vpc",
        "terraform-ünï-çødé-module",
        "terraform-aws-s3-module-",
        "module-terraform-aws-s3",
        "terraform-aws-s3\n-module",
        "terraform-a\nb-c-module",
    ];
    for name in names {
        let expected = re
            .captures(name)
            .map(|c| (c[1].to_string(), c[2].to_string()));
        assert_eq!(split(name, None), expected, "{:?}", name);
    }
}

#[test]
fn resolve_under_a_provider_constraint() {
    assert_eq!(split("terraform-aws-s3-module", Some("aws")), pair("aws", "s3"));
    assert_eq!(split("terraform-aws-s3-bucket-module", Some("aws")), pair("aws", "s3-bucket"));
    assert_eq!(split("terraform-gcp-s3-module", Some("aws")), None);
    assert_eq!(split("terraform-aws--module", Some("aws")), None);
    assert_eq!(split("terraform-aws-module", Some("aws")), None);
    assert_eq!(split("terraform-my-cloud-x-module", Some("my-cloud")), pair("my-cloud", "x"));
    assert_eq!(split("terraform-my-cloud-x-module", Some("my")), pair("my", "cloud-x"));
    assert_eq!(split("terraform--x-module", Some("")), pair("", "x"));
    assert_eq!(split("terraform-awsx-s3-module", Some("aws")), None);
}

#[test]
fn filter_keeps_conforming_names_without_constraint() {
    let nodes = vec![
        node("terraform-aws-s3-module"),
        node("terraform-vpc"),
        node("terraform-gcp-bigquery-module"),
    ];
    let (kept, filtered) = filter(nodes, &None);
    assert_eq!(
        record_names(&kept),
        vec!["terraform-aws-s3-module", "terraform-gcp-bigquery-module"]
    );
    assert_eq!(filtered, 1);
    assert_eq!(
        record_parts(&kept),
        vec![
            ("aws".to_string(), "s3".to_string()),
            ("gcp".to_string(), "bigquery".to_string())
        ]
    );
}

#[test]
fn filter_under_a_provider_constraint() {
    let nodes = vec![node("terraform-aws-s3-module"), node("terraform-gcp-s3-module")];
    let (kept, filtered) = filter(nodes, &Some("aws".to_string()));
    assert_eq!(record_names(&kept), vec!["terraform-aws-s3-module"]);
    assert_eq!(filtered, 1);
    assert_eq!(record_parts(&kept), vec![("aws".to_string(), "s3".to_string())]);
}

#[test]
fn filter_keeps_order_and_counts() {
    let names = [
        "terraform-z-last-module",
        "misc",
        "terraform-a-first-module",
        "terraform-m-mid-module",
        "terraform-bad",
        "terraform-b-b-module",
    ];
    let nodes: Vec<_> = names.iter().map(|n| node(n)).collect();
    let (kept, filtered) = filter(nodes, &None);
    assert_eq!(
        record_names(&kept),
        vec![
            "terraform-z-last-module",
            "terraform-a-first-module",
            "terraform-m-mid-module",
            "terraform-b-b-module"
        ]
    );
    assert_eq!(filtered as usize + kept.len(), names.len());
}

#[test]
fn filter_of_an_empty_page() {
    let (kept, filtered) = filter(vec![], &None);
    assert!(kept.is_empty());
    assert_eq!(filtered, 0);
}

#[test]
fn filter_keeps_a_whole_node() {
    let mut n = node("terraform-aws-s3-module");
    n.releases.nodes.push(ListModulesResponseRelease {
        tag_name: "v1.2.0".to_string(),
        published_at: "2021-01-01T00:00:00Z".to_string(),
    });
    n.refs.nodes.push(ListModulesResponseRef { name: "v1.2.0".to_string() });
    let (kept, _) = filter(vec![n.clone()], &None);
    assert_eq!(
        kept,
        vec![ModuleRecord { candidate: n, provider: "aws".to_string(), short_name: "s3".to_string() }]
    );
}

#[test]
fn sift_counts_dropped_and_keeps_totals() {
    let input = page(
        &["terraform-aws-s3-module", "terraform-vpc", "terraform-gcp-bigquery-module"],
        page_info(true, Some("Y3Vyc29yOjI=")),
    );
    let out = sift_response(input, &None);
    assert_eq!(out.data.search.filtered_repository_count, Some(1));
    assert_eq!(out.data.search.repository_count, 42);
    assert_eq!(out.data.search.nodes.len(), 2);
    assert_eq!(out.data.search.page_info, page_info(true, Some("Y3Vyc29yOjI=")));
}

#[test]
fn settle_reports_transport_failure_verbatim() {
    let input = page(&["terraform-aws-s3-module"], page_info(false, None));
    let r = settle_list_modules(Some(1), "rate limited".to_string(), Ok(input), &None);
    assert_eq!(r, Err(ModuleError::Transport("rate limited".to_string())));
    let r = settle_list_modules(None, "killed".to_string(), Err("x".to_string()), &None);
    assert_eq!(r, Err(ModuleError::Transport("killed".to_string())));
}

#[test]
fn settle_reports_malformed_answers() {
    let r = settle_list_modules(
        Some(0),
        String::new(),
        Err("missing field `data`".to_string()),
        &None,
    );
    assert_eq!(r, Err(ModuleError::Malformed("missing field `data`".to_string())));
    assert_eq!(r.unwrap_err().message(), "missing field `data`");
}

#[test]
fn settle_sifts_a_decoded_page() {
    let input = page(
        &["terraform-aws-s3-module", "terraform-gcp-s3-module"],
        page_info(false, None),
    );
    let out = settle_list_modules(Some(0), String::new(), Ok(input), &Some("aws".to_string()))
        .unwrap();
    assert_eq!(names_of(&out.data.search.nodes), vec!["terraform-aws-s3-module"]);
    assert_eq!(out.data.search.filtered_repository_count, Some(1));
}

#[test]
fn settle_twice_gives_equal_results() {
    let input = page(
        &["terraform-aws-s3-module", "terraform-vpc"],
        page_info(true, Some("abc")),
    );
    let a = settle_list_modules(Some(0), String::new(), Ok(input.clone()), &None);
    let b = settle_list_modules(Some(0), String::new(), Ok(input), &None);
    assert_eq!(a, b);
}

#[test]
fn last_page_offers_no_cursor() {
    let info = page_info(false, None);
    assert_eq!(info.next_cursor(), None);
    let out = sift_response(page(&["terraform-aws-s3-module"], info.clone()), &None);
    assert_eq!(out.data.search.page_info, info);
    assert_eq!(out.data.search.page_info.next_cursor(), None);
    assert_eq!(page_info(false, Some("stale")).next_cursor(), None);
}

#[test]
fn next_cursor_is_passed_on_verbatim() {
    let cursor = "Y3Vyc29yOnYyOpK5MjAyMS0wMS0wMVQwMDowMDowMCswMDowMM4AAAAB";
    assert_eq!(page_info(true, Some(cursor)).next_cursor(), Some(cursor.to_string()));
    let refs_info = ListModuleResponseRefsPageInfo {
        has_next_page: true,
        end_cursor: Some("MTA".to_string()),
        has_previous_page: false,
        start_cursor: Some("MQ".to_string()),
    };
    assert_eq!(refs_info.next_cursor(), Some("MTA".to_string()));
    let releases_info = ListModuleResponseReleasesPageInfo {
        has_next_page: false,
        end_cursor: Some("MTA".to_string()),
        has_previous_page: true,
        start_cursor: None,
    };
    assert_eq!(releases_info.next_cursor(), None);
}

#[test]
fn search_query_variables() {
    let q = build_search_query("acme", &Some("aws".to_string()), Some(5), Some("abc=".to_string()))
        .unwrap();
    assert_eq!(q.search, "terraform-aws-module in:name user:acme");
    assert_eq!(q.first, 5);
    assert_eq!(q.after, Some("abc=".to_string()));
    let q = build_search_query("acme", &None, None, None).unwrap();
    assert_eq!(q.search, "terraform-module in:name user:acme");
    assert_eq!(q.first, DEFAULT_SEARCH_PAGE_SIZE);
    assert_eq!(q.first, 30);
    assert_eq!(q.after, None);
    assert!(SEARCH_DOCUMENT.contains("$search"));
}

#[test]
fn search_query_keeps_odd_names_out_of_the_document() {
    let q = build_search_query("a\"b", &None, Some(1), Some("\"x\"".to_string())).unwrap();
    assert_eq!(q.search, "terraform-module in:name user:a\"b");
    assert_eq!(q.after, Some("\"x\"".to_string()));
    assert!(!SEARCH_DOCUMENT.contains("a\"b"));
}

#[test]
fn zero_page_size_is_refused() {
    assert_eq!(build_search_query("acme", &None, Some(0), None), Err(QueryError::ZeroPageSize));
    assert_eq!(
        build_lookup_query("acme", &None, "aws-s3", Some(0), None),
        Err(QueryError::ZeroPageSize)
    );
}

#[test]
fn lookup_query_variables() {
    let q = build_lookup_query("acme", &Some("aws".to_string()), "s3", None, None).unwrap();
    assert_eq!(q.owner, "acme");
    assert_eq!(q.name, "terraform-aws-s3-module");
    assert_eq!(q.first, DEFAULT_LOOKUP_PAGE_SIZE);
    assert_eq!(q.first, 3);
    assert_eq!(q.after, None);
    let q = build_lookup_query("acme", &None, "aws-s3", Some(10), Some("c".to_string())).unwrap();
    assert_eq!(q.name, "terraform-aws-s3-module");
    assert_eq!(q.first, 10);
    assert_eq!(q.after, Some("c".to_string()));
    assert_eq!(split(&q.name, Some("aws")), pair("aws", "s3"));
    assert!(LOOKUP_DOCUMENT.contains("$owner"));
}

fn repository(tags: &[&str], releases: &[&str]) -> ListModuleResponseRepository {
    ListModuleResponseRepository {
        name: "terraform-aws-s3-module".to_string(),
        description: None,
        url: "https://github.com/acme/terraform-aws-s3-module".to_string(),
        releases: ListModuleResponseReleases {
            edges: releases
                .iter()
                .map(|r| ListModuleResponseRelease {
                    node: ListModuleResponseReleaseNode { name: r.to_string() },
                })
                .collect(),
            page_info: ListModuleResponseReleasesPageInfo {
                has_next_page: false,
                end_cursor: None,
                has_previous_page: false,
                start_cursor: None,
            },
            total_count: releases.len() as u64,
        },
        refs: ListModuleResponseRefs {
            edges: tags
                .iter()
                .map(|t| ListModuleResponseRef {
                    node: ListModuleResponseRefNode { name: t.to_string() },
                })
                .collect(),
            page_info: ListModuleResponseRefsPageInfo {
                has_next_page: true,
                end_cursor: Some("Mw".to_string()),
                has_previous_page: false,
                start_cursor: None,
            },
            total_count: 17,
        },
    }
}

#[test]
fn lookup_outcomes() {
    let r = settle_list_module(Some(1), "GraphQL: boom".to_string(), Ok(None), "n".to_string());
    assert_eq!(r, Err(ModuleError::Transport("GraphQL: boom".to_string())));
    let r = settle_list_module(Some(0), String::new(), Ok(None), "terraform-aws-x-module".to_string());
    assert_eq!(r, Err(ModuleError::NotFound("terraform-aws-x-module".to_string())));
    let r = settle_list_module(Some(0), String::new(), Err("bad".to_string()), "n".to_string());
    assert_eq!(r, Err(ModuleError::Malformed("bad".to_string())));
    let repo = repository(&["v2", "v1"], &["v2"]);
    let r = settle_list_module(Some(0), String::new(), Ok(Some(repo.clone())), "n".to_string());
    assert_eq!(r.unwrap().data.repository, repo);
}

#[test]
fn decimal_text_values() {
    assert_eq!(decimal_text(0), "0");
    assert_eq!(decimal_text(7), "7");
    assert_eq!(decimal_text(10), "10");
    assert_eq!(decimal_text(1234567890), "1234567890");
    assert_eq!(decimal_text(u64::MAX), u64::MAX.to_string());
}

#[test]
fn modules_table_layout() {
    assert_eq!(modules_table_titles(false, false), vec!["Name", "Latest Tag", "Latest Release"]);
    assert_eq!(
        modules_table_titles(true, true),
        vec!["Name", "Description", "URL", "Latest Tag", "Latest Release"]
    );
    let mut n = node("terraform-aws-s3-module");
    assert_eq!(modules_table_row(&n, false, false), vec!["terraform-aws-s3-module", "", ""]);
    n.refs.nodes.push(ListModulesResponseRef { name: "v1.0.1".to_string() });
    n.releases.nodes.push(ListModulesResponseRelease {
        tag_name: "v1.0.0".to_string(),
        published_at: "2021-01-01T00:00:00Z".to_string(),
    });
    n.description = None;
    assert_eq!(
        modules_table_row(&n, true, true),
        vec![
            "terraform-aws-s3-module",
            "",
            "https://github.com/acme/terraform-aws-s3-module",
            "v1.0.1",
            "v1.0.0"
        ]
    );
}

#[test]
fn modules_footer_layout() {
    let out = sift_response(
        page(&["terraform-aws-s3-module", "other"], page_info(true, Some("cur"))),
        &None,
    );
    let (titles, values) = modules_footer(&out.data.search);
    assert_eq!(titles, vec!["Search Total", "Filtered Repos", "End Cursor"]);
    assert_eq!(values, vec!["42", "1", "cur"]);
    let plain = page(&["terraform-aws-s3-module"], page_info(false, None));
    let (titles, values) = modules_footer(&plain.data.search);
    assert_eq!(titles, vec!["Search Total"]);
    assert_eq!(values, vec!["42"]);
}

#[test]
fn module_table_layout() {
    let repo = repository(&["v2", "v1"], &[]);
    assert_eq!(
        module_table_titles(false, true, true, false),
        vec!["Name", "URL", "Latest Tag"]
    );
    assert_eq!(
        module_table_row(&repo, true, false),
        vec!["terraform-aws-s3-module", "", "v2"]
    );
    assert_eq!(tag_names(&repo.refs), vec!["v2", "v1"]);
    let (titles, values) = tags_footer(&repo.refs);
    assert_eq!(titles, vec!["Tags Total", "End Cursor"]);
    assert_eq!(values, vec!["17", "Mw"]);
    let empty = repository(&[], &["r1"]);
    assert_eq!(module_table_row(&empty, false, false), vec!["terraform-aws-s3-module", "r1"]);
}

#[test]
fn config_defaults() {
    let c = Config::new(None, Some("aws".to_string()), "octocat".to_string());
    assert_eq!(c.org, Some("octocat".to_string()));
    assert_eq!(c.provider, Some("aws".to_string()));
    let c = Config::new(Some("acme".to_string()), None, "octocat".to_string());
    assert_eq!(c.org, Some("acme".to_string()));
    assert_eq!(c.provider, None);
}

#[test]
fn config_merge_prefers_given_values() {
    let stored = Config { org: Some("stored".to_string()), provider: Some("gcp".to_string()) };
    let c = Config::merged(Some("acme".to_string()), None, stored.clone());
    assert_eq!(c.org, Some("acme".to_string()));
    assert_eq!(c.provider, Some("gcp".to_string()));
    let c = Config::merged(None, None, Config { org: None, provider: None });
    assert_eq!(c, Config { org: None, provider: None });
}
