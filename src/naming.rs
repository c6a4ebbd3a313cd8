//! The naming convention that tells module repositories apart from the rest:
//! `terraform-<provider>-<short_name>-module`.
use vstd::prelude::*;
use vstd::string::*;

verus! {

/// What every module repository name starts with.
pub open spec fn name_prefix() -> Seq<char> {
    "terraform-"@
}

/// What every module repository name ends with.
pub open spec fn name_suffix() -> Seq<char> {
    "-module"@
}

pub open spec fn hyphen_free(s: Seq<char>) -> bool {
    forall|i: int| 0 <= i < s.len() ==> s[i] != '-'
}

/// The repository name of module `short_name` for `provider`.
pub open spec fn module_repo_name(provider: Seq<char>, short_name: Seq<char>) -> Seq<char> {
    name_prefix() + provider + seq!['-'] + short_name + name_suffix()
}

/// `name` is `terraform-<provider>-<short_name>-module` with a non-empty,
/// hyphen-free provider and a non-empty short name.
pub open spec fn splits_as(name: Seq<char>, provider: Seq<char>, short_name: Seq<char>) -> bool {
    &&& provider.len() > 0
    &&& hyphen_free(provider)
    &&& short_name.len() > 0
    &&& name == module_repo_name(provider, short_name)
}

/// `name` follows the naming convention for some provider.
pub open spec fn is_module_name(name: Seq<char>) -> bool {
    exists|provider: Seq<char>, short_name: Seq<char>| splits_as(name, provider, short_name)
}

/// `name` is `terraform-<provider>-<short_name>-module` for the given provider
/// and some non-empty short name.
pub open spec fn is_module_name_for(name: Seq<char>, provider: Seq<char>) -> bool {
    exists|short_name: Seq<char>|
        short_name.len() > 0 && name == #[trigger] module_repo_name(provider, short_name)
}

/// `name` is a module under the given provider constraint, if any.
pub open spec fn conforms(name: Seq<char>, provider: Option<Seq<char>>) -> bool {
    match provider {
        Some(p) => is_module_name_for(name, p),
        None => is_module_name(name),
    }
}

/// The provider constraint as a sequence of characters.
pub open spec fn constraint_view(provider: Option<String>) -> Option<Seq<char>> {
    match provider {
        Some(p) => Some(p@),
        None => None,
    }
}

/// `provider` and `short_name` are the parts of `name` under the constraint:
/// the constraint itself and the rest, or without one, the split of the
/// convention.
pub open spec fn parts_of(
    name: Seq<char>,
    constraint: Option<Seq<char>>,
    provider: Seq<char>,
    short_name: Seq<char>,
) -> bool {
    match constraint {
        Some(p) => provider == p && short_name.len() > 0 && name == module_repo_name(p, short_name),
        None => splits_as(name, provider, short_name),
    }
}

/// The two parts of a module repository's name.
pub struct ModuleName {
    pub provider: String,
    pub short_name: String,
}

/// For a given provider, a module repository name has only one short name.
pub proof fn lemma_short_name_unique(name: Seq<char>, provider: Seq<char>, sa: Seq<char>, sb: Seq<char>)
    requires
        name == module_repo_name(provider, sa),
        name == module_repo_name(provider, sb),
    ensures
        sa == sb,
{
    let start: int = (name_prefix().len() + provider.len() + 1) as int;
    assert(module_repo_name(provider, sa).len() == name_prefix().len() + provider.len() + 1 + sa.len()
        + name_suffix().len());
    assert(module_repo_name(provider, sb).len() == name_prefix().len() + provider.len() + 1 + sb.len()
        + name_suffix().len());
    assert(sa =~= name.subrange(start, start + sa.len()));
    assert(sb =~= name.subrange(start, start + sb.len()));
}

/// A name that follows the convention splits into provider and short name in
/// exactly one way.
pub proof fn lemma_split_unique(name: Seq<char>, pa: Seq<char>, sa: Seq<char>, pb: Seq<char>, sb: Seq<char>)
    requires
        splits_as(name, pa, sa),
        splits_as(name, pb, sb),
    ensures
        pa == pb,
        sa == sb,
{
    reveal_strlit("terraform-");
    let k: int = name_prefix().len() as int;
    if pa.len() < pb.len() {
        assert(name[k + pa.len() as int] == '-');
        assert(name[k + pa.len() as int] == pb[pa.len() as int]);
    } else if pb.len() < pa.len() {
        assert(name[k + pb.len() as int] == '-');
        assert(name[k + pb.len() as int] == pa[pb.len() as int]);
    }
    assert(pa =~= name.subrange(k, k + pa.len() as int));
    assert(pb =~= name.subrange(k, k + pb.len() as int));
    lemma_short_name_unique(name, pa, sa, sb);
}

/// Whether `lit` occurs in `s` at character position `at`.
fn has_at(s: &str, at: usize, lit: &str) -> (r: bool)
    requires
        at + lit@.len() <= s@.len() <= usize::MAX,
    ensures
        r == (s@.subrange(at as int, at + lit@.len()) == lit@),
{
    let n = lit.unicode_len();
    let mut j: usize = 0;
    while j < n
        invariant
            n == lit@.len(),
            at + n <= s@.len() <= usize::MAX,
            j <= n,
            forall|k: int| 0 <= k < j ==> s@[at + k] == lit@[k],
        decreases n - j,
    {
        if s.get_char(at + j) != lit.get_char(j) {
            assert(s@.subrange(at as int, at + n)[j as int] != lit@[j as int]);
            return false;
        }
        j = j + 1;
    }
    assert(s@.subrange(at as int, at + n) =~= lit@);
    true
}

/// Splits a repository name by the naming convention. With a provider
/// constraint, only names of that provider are modules, and the provider
/// segment may then hold hyphens; without one, the provider is the
/// hyphen-free segment after `terraform-`. A name that does not conform gives
/// `None`.
pub fn resolve(name: &str, provider: &Option<String>) -> (r: Option<ModuleName>)
    ensures
        r.is_some() <==> conforms(name@, constraint_view(*provider)),
        r matches Some(m) ==> parts_of(name@, constraint_view(*provider), m.provider@, m.short_name@),
{
    match provider {
        Some(p) => resolve_for(name, p.as_str()),
        None => resolve_any(name),
    }
}

fn resolve_for(name: &str, provider: &str) -> (r: Option<ModuleName>)
    ensures
        r.is_some() <==> is_module_name_for(name@, provider@),
        r matches Some(m) ==> m.provider@ == provider@ && m.short_name@.len() > 0
            && name@ == module_repo_name(provider@, m.short_name@),
{
    let prefix = "terraform-";
    let suffix = "-module";
    proof {
        reveal_strlit("terraform-");
        reveal_strlit("-module");
    }
    let n = name.unicode_len();
    let lp = provider.unicode_len();
    if n < 19 || lp > n - 19 {
        proof {
            if is_module_name_for(name@, provider@) {
                let s = choose|s: Seq<char>|
                    s.len() > 0 && name@ == #[trigger] module_repo_name(provider@, s);
                assert(name@.len() == 18 + provider@.len() + s.len());
            }
        }
        return None;
    }
    let start = 10 + lp + 1;
    let end = n - 7;
    let ok = has_at(name, 0, prefix) && has_at(name, 10, provider) && name.get_char(10 + lp)
        == '-' && has_at(name, end, suffix);
    if !ok {
        proof {
            if is_module_name_for(name@, provider@) {
                let s = choose|s: Seq<char>|
                    s.len() > 0 && name@ == #[trigger] module_repo_name(provider@, s);
                let full = module_repo_name(provider@, s);
                assert(full.subrange(0, 10) =~= name_prefix());
                assert(full.subrange(10, 10 + lp) =~= provider@);
                assert(full[10 + lp] == '-');
                assert(full.subrange(end as int, end + 7) =~= name_suffix());
            }
        }
        return None;
    }
    let short = name.substring_char(start, end);
    let ghost s = short@;
    proof {
        assert(name@ =~= module_repo_name(provider@, s)) by {
            assert(name@ =~= name@.subrange(0, 10) + name@.subrange(10, 10 + lp) + seq![
                name@[10 + lp],
            ] + name@.subrange(start as int, end as int) + name@.subrange(end as int, n as int));
        }
        assert(s.len() > 0 && name@ == module_repo_name(provider@, s));
    }
    Some(ModuleName { provider: String::from_str(provider), short_name: String::from_str(short) })
}

fn resolve_any(name: &str) -> (r: Option<ModuleName>)
    ensures
        r.is_some() <==> is_module_name(name@),
        r matches Some(m) ==> splits_as(name@, m.provider@, m.short_name@),
{
    let prefix = "terraform-";
    let suffix = "-module";
    proof {
        reveal_strlit("terraform-");
        reveal_strlit("-module");
    }
    let n = name.unicode_len();
    if n < 20 {
        proof {
            if is_module_name(name@) {
                let (p, s) = choose|p: Seq<char>, s: Seq<char>| splits_as(name@, p, s);
                assert(name@.len() == 18 + p.len() + s.len());
            }
        }
        return None;
    }
    let end = n - 7;
    if !has_at(name, 0, prefix) || !has_at(name, end, suffix) {
        proof {
            if is_module_name(name@) {
                let (p, s) = choose|p: Seq<char>, s: Seq<char>| splits_as(name@, p, s);
                let full = module_repo_name(p, s);
                assert(full.subrange(0, 10) =~= name_prefix());
                assert(full.subrange(end as int, end + 7) =~= name_suffix());
            }
        }
        return None;
    }
    // The provider runs up to the first hyphen after the prefix.
    let mut h: usize = 10;
    while h < end && name.get_char(h) != '-'
        invariant
            10 <= h <= end,
            end + 7 == n,
            n == name@.len(),
            hyphen_free(name@.subrange(10, h as int)),
        decreases end - h,
    {
        assert(hyphen_free(name@.subrange(10, h + 1)));
        h = h + 1;
    }
    if h == 10 || h + 1 >= end {
        proof {
            if is_module_name(name@) {
                let (p, s) = choose|p: Seq<char>, s: Seq<char>| splits_as(name@, p, s);
                let full = module_repo_name(p, s);
                assert(full[10 + p.len() as int] == '-');
                if h < 10 + p.len() as int {
                    assert(full[h as int] == p[h - 10]);
                } else if h > 10 + p.len() as int {
                    assert(name@.subrange(10, h as int)[p.len() as int] == '-');
                }
            }
        }
        return None;
    }
    let provider = name.substring_char(10, h);
    let short = name.substring_char(h + 1, end);
    let ghost p = provider@;
    let ghost s = short@;
    proof {
        assert(p =~= name@.subrange(10, h as int));
        assert(name@ =~= module_repo_name(p, s)) by {
            assert(name@ =~= name@.subrange(0, 10) + name@.subrange(10, h as int) + seq![
                name@[h as int],
            ] + name@.subrange(h + 1, end as int) + name@.subrange(end as int, n as int));
        }
        assert(splits_as(name@, p, s));
    }
    Some(ModuleName { provider: String::from_str(provider), short_name: String::from_str(short) })
}

} // verus!
