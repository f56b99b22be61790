//! The file finder: walks each configured root and keeps the entries that
//! pass the type and name filters.
//!
//! The filters compose as OR within a category and AND across categories: an
//! empty category accepts everything, a non-empty one accepts an entry that
//! at least one of its members accepts. Name patterns are tried against the
//! entry's base name, unanchored.

use vstd::prelude::*;
use crate::pattern::Pattern;
use crate::text::join_lines;
use crate::text::spec_join_lines;
use crate::walk::Entry;
use crate::walk::EntryType;
use crate::walk::EntryView;
use crate::walk::walk_tree;

verus! {

/// The finder's configuration: the roots to walk, the name patterns and the
/// entry-type filters. Empty filter lists accept every entry.
pub struct Config {
    pub paths: Vec<String>,
    pub names: Vec<Pattern>,
    pub entry_type: Vec<EntryType>,
}

/// True when `filters` is empty or some filter equals `kind`.
pub open spec fn spec_matches_type(kind: EntryType, filters: Seq<EntryType>) -> bool {
    filters.len() == 0 || exists|i: int| 0 <= i < filters.len() && filters[i] == kind
}

/// True when `pats` is empty or some pattern matches somewhere in `name`.
pub open spec fn spec_matches_name(name: Seq<char>, pats: Seq<Pattern>) -> bool {
    pats.len() == 0 || exists|i: int| 0 <= i < pats.len() && pats[i].spec_matches(name)
}

/// The combined finder predicate: the entry's type passes the type filters
/// and its base name passes the name filters.
pub open spec fn spec_entry_matches(e: EntryView, types: Seq<EntryType>, pats: Seq<Pattern>) -> bool {
    spec_matches_type(e.kind, types) && spec_matches_name(e.name, pats)
}

/// Decides [`spec_matches_type`].
pub fn matches_type(kind: EntryType, filters: &Vec<EntryType>) -> (r: bool)
    ensures
        r == spec_matches_type(kind, filters@),
{
    if filters.len() == 0 {
        return true;
    }
    let mut i: usize = 0;
    while i < filters.len()
        invariant
            0 <= i <= filters.len(),
            forall|j: int| 0 <= j < i ==> filters@[j] != kind,
        decreases filters.len() - i,
    {
        if filters[i] == kind {
            return true;
        }
        i = i + 1;
    }
    false
}

/// Decides [`spec_matches_name`].
pub fn matches_name(name: &String, pats: &Vec<Pattern>) -> (r: bool)
    ensures
        r == spec_matches_name(name@, pats@),
{
    if pats.len() == 0 {
        return true;
    }
    let mut i: usize = 0;
    while i < pats.len()
        invariant
            0 <= i <= pats.len(),
            forall|j: int| 0 <= j < i ==> !pats@[j].spec_matches(name@),
        decreases pats.len() - i,
    {
        if pats[i].is_match(name.as_str()) {
            return true;
        }
        i = i + 1;
    }
    false
}

/// Decides [`spec_entry_matches`].
pub fn entry_matches(e: &Entry, types: &Vec<EntryType>, pats: &Vec<Pattern>) -> (r: bool)
    ensures
        r == spec_entry_matches(e@, types@, pats@),
{
    matches_type(e.kind, types) && matches_name(&e.name, pats)
}

/// The combined predicate is a pure function of the entry and the filters:
/// equal inputs give equal results, and nothing else enters the decision.
pub proof fn lemma_entry_predicate_pure(
    e1: EntryView,
    e2: EntryView,
    t1: Seq<EntryType>,
    t2: Seq<EntryType>,
    n1: Seq<Pattern>,
    n2: Seq<Pattern>,
)
    requires
        e1 == e2,
        t1 == t2,
        n1 == n2,
    ensures
        spec_entry_matches(e1, t1, n1) == spec_entry_matches(e2, t2, n2),
{
}

/// The paths of the walk items that pass the filters, in walk order.
pub open spec fn spec_matched_paths(
    items: Seq<Result<Entry, String>>,
    types: Seq<EntryType>,
    pats: Seq<Pattern>,
) -> Seq<Seq<char>>
    decreases items.len(),
{
    if items.len() == 0 {
        Seq::empty()
    } else {
        let rest = spec_matched_paths(items.drop_last(), types, pats);
        match items.last() {
            Ok(e) => if spec_entry_matches(e@, types, pats) {
                rest.push(e.path@)
            } else {
                rest
            },
            Err(_) => rest,
        }
    }
}

/// The messages of the failed walk items, in walk order.
pub open spec fn spec_item_errors(items: Seq<Result<Entry, String>>) -> Seq<Seq<char>>
    decreases items.len(),
{
    if items.len() == 0 {
        Seq::empty()
    } else {
        let rest = spec_item_errors(items.drop_last());
        match items.last() {
            Ok(_) => rest,
            Err(m) => rest.push(m@),
        }
    }
}

/// Splits the walk items into the paths that pass the filters and the
/// traversal error messages, both in walk order.
pub fn find_matching(
    items: &Vec<Result<Entry, String>>,
    types: &Vec<EntryType>,
    pats: &Vec<Pattern>,
) -> (r: (Vec<String>, Vec<String>))
    ensures
        r.0.deep_view() == spec_matched_paths(items@, types@, pats@),
        r.1.deep_view() == spec_item_errors(items@),
{
    let mut matched: Vec<String> = Vec::new();
    let mut errors: Vec<String> = Vec::new();
    let mut i: usize = 0;
    while i < items.len()
        invariant
            0 <= i <= items.len(),
            matched.deep_view() == spec_matched_paths(items@.take(i as int), types@, pats@),
            errors.deep_view() == spec_item_errors(items@.take(i as int)),
        decreases items.len() - i,
    {
        proof {
            assert(items@.take(i as int + 1).drop_last() =~= items@.take(i as int));
            assert(items@.take(i as int + 1).last() == items@[i as int]);
        }
        match &items[i] {
            Ok(e) => {
                if entry_matches(e, types, pats) {
                    matched.push(e.path.clone());
                    proof {
                        assert(matched.deep_view() =~= spec_matched_paths(
                            items@.take(i as int + 1), types@, pats@));
                    }
                } else {
                    proof {
                        assert(matched.deep_view() =~= spec_matched_paths(
                            items@.take(i as int + 1), types@, pats@));
                    }
                }
                proof {
                    assert(errors.deep_view() =~= spec_item_errors(items@.take(i as int + 1)));
                }
            }
            Err(m) => {
                errors.push(m.clone());
                proof {
                    assert(matched.deep_view() =~= spec_matched_paths(
                        items@.take(i as int + 1), types@, pats@));
                    assert(errors.deep_view() =~= spec_item_errors(items@.take(i as int + 1)));
                }
            }
        }
        i = i + 1;
    }
    proof {
        assert(items@.take(items.len() as int) =~= items@);
    }
    (matched, errors)
}

/// Over an unchanged tree — the same walk items — and the same filters, the
/// finder yields the same paths: a second run repeats the first.
pub proof fn lemma_finder_idempotent(
    items1: Seq<Result<Entry, String>>,
    items2: Seq<Result<Entry, String>>,
    types: Seq<EntryType>,
    pats: Seq<Pattern>,
)
    requires
        items1 == items2,
    ensures
        spec_matched_paths(items1, types, pats) == spec_matched_paths(items2, types, pats),
{
}

/// Filters the walk items of one root and joins the surviving paths into one
/// newline-separated block, beside the root's traversal error messages.
pub fn render_root(
    items: &Vec<Result<Entry, String>>,
    types: &Vec<EntryType>,
    pats: &Vec<Pattern>,
) -> (r: (String, Vec<String>))
    ensures
        r.0@ == spec_join_lines(spec_matched_paths(items@, types@, pats@)),
        r.1.deep_view() == spec_item_errors(items@),
{
    let (matched, errors) = find_matching(items, types, pats);
    let block = join_lines(&matched);
    (block, errors)
}

/// Holds when some sequence of walk items — whatever the tree held —
/// explains both the block and the error messages of one root's result.
pub open spec fn spec_root_result(
    pair: (String, Vec<String>),
    types: Seq<EntryType>,
    pats: Seq<Pattern>,
) -> bool {
    exists|items: Seq<Result<Entry, String>>|
        pair.0@ == spec_join_lines(#[trigger] spec_matched_paths(items, types, pats))
            && pair.1.deep_view() == spec_item_errors(items)
}

/// Walks one root and renders it: some sequence of walk items — whatever the
/// tree held — explains both the block and the errors.
pub fn find_in_root(root: &String, types: &Vec<EntryType>, pats: &Vec<Pattern>) -> (r: (
    String,
    Vec<String>,
))
    ensures
        spec_root_result(r, types@, pats@),
{
    let items = walk_tree(root);
    let r = render_root(&items, types, pats);
    proof {
        assert(r.0@ == spec_join_lines(spec_matched_paths(items@, types@, pats@))
            && r.1.deep_view() == spec_item_errors(items@));
    }
    r
}

/// Runs the finder: walks every configured root in order and returns, per
/// root, the newline-joined block of matched paths and the root's traversal
/// error messages.
pub fn run(config: &Config) -> (r: Vec<(String, Vec<String>)>)
    ensures
        r@.len() == config.paths@.len(),
        forall|i: int| 0 <= i < r@.len() ==>
            #[trigger] spec_root_result(r@[i], config.entry_type@, config.names@),
{
    let mut out: Vec<(String, Vec<String>)> = Vec::new();
    let mut i: usize = 0;
    while i < config.paths.len()
        invariant
            0 <= i <= config.paths.len(),
            out@.len() == i,
            forall|j: int| 0 <= j < i ==>
                #[trigger] spec_root_result(out@[j], config.entry_type@, config.names@),
        decreases config.paths.len() - i,
    {
        let block = find_in_root(&config.paths[i], &config.entry_type, &config.names);
        out.push(block);
        i = i + 1;
    }
    out
}

} // verus!
