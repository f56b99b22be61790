use findgrep::finder::{entry_matches, find_matching, matches_name, matches_type, render_root};
use findgrep::pattern::Pattern;
use findgrep::walk::{Entry, EntryType};

fn entry(path: &str, name: &str, kind: EntryType) -> Entry {
    Entry { path: path.to_string(), name: name.to_string(), kind }
}

fn scenario_tree() -> Vec<Result<Entry, String>> {
    vec![
        Ok(entry(".", ".", EntryType::Dir)),
        Ok(entry("./a.txt", "a.txt", EntryType::File)),
        Ok(entry("./b.log", "b.log", EntryType::File)),
        Ok(entry("./sub", "sub", EntryType::Dir)),
        Ok(entry("./sub/c.txt", "c.txt", EntryType::File)),
    ]
}

#[test]
fn finder_type_filter_keeps_only_files() {
    let items = scenario_tree();
    let types = vec![EntryType::File];
    let names: Vec<Pattern> = Vec::new();
    let (matched, errors) = find_matching(&items, &types, &names);
    assert_eq!(matched, vec!["./a.txt", "./b.log", "./sub/c.txt"]);
    assert!(errors.is_empty());
}

#[test]
fn finder_name_filter_keeps_txt_entries() {
    let items = scenario_tree();
    let types: Vec<EntryType> = Vec::new();
    let names = vec![Pattern::new("\\.txt$", false).unwrap()];
    let (matched, errors) = find_matching(&items, &types, &names);
    assert_eq!(matched, vec!["./a.txt", "./sub/c.txt"]);
    assert!(errors.is_empty());
}

#[test]
fn empty_filters_match_every_entry() {
    let types: Vec<EntryType> = Vec::new();
    let names: Vec<Pattern> = Vec::new();
    let e = entry("./x", "x", EntryType::Link);
    assert!(matches_type(e.kind, &types));
    assert!(matches_name(&e.name, &names));
    assert!(entry_matches(&e, &types, &names));
}

#[test]
fn combined_predicate_is_deterministic() {
    let types = vec![EntryType::File, EntryType::Link];
    let names = vec![Pattern::new("^a", false).unwrap(), Pattern::new("z$", false).unwrap()];
    let e = entry("./abc", "abc", EntryType::File);
    let first = entry_matches(&e, &types, &names);
    let second = entry_matches(&e, &types, &names);
    assert_eq!(first, second);
    assert!(first);
}

#[test]
fn type_filters_are_a_disjunction() {
    let both = vec![EntryType::Dir, EntryType::Link];
    assert!(matches_type(EntryType::Dir, &both));
    assert!(matches_type(EntryType::Link, &both));
    assert!(!matches_type(EntryType::File, &both));
    let link = entry("./l", "l", EntryType::Link);
    assert!(entry_matches(&link, &vec![EntryType::Link], &Vec::new()));
    assert!(!entry_matches(&link, &vec![EntryType::Dir], &Vec::new()));
}

#[test]
fn name_match_is_unanchored() {
    let names = vec![Pattern::new("txt", false).unwrap()];
    assert!(matches_name(&"a.txt.bak".to_string(), &names));
    assert!(matches_name(&"txt".to_string(), &names));
    assert!(!matches_name(&"a.log".to_string(), &names));
}

#[test]
fn finder_runs_are_idempotent_on_an_unchanged_tree() {
    let items = scenario_tree();
    let types = vec![EntryType::File];
    let names = vec![Pattern::new("\\.txt$", false).unwrap()];
    let (first, _) = find_matching(&items, &types, &names);
    let (second, _) = find_matching(&items, &types, &names);
    let mut a = first.clone();
    let mut b = second.clone();
    a.sort();
    b.sort();
    assert_eq!(a, b);
}

#[test]
fn render_root_joins_matches_with_newlines() {
    let items = scenario_tree();
    let types = vec![EntryType::File];
    let names: Vec<Pattern> = Vec::new();
    let (block, errors) = render_root(&items, &types, &names);
    assert_eq!(block, "./a.txt\n./b.log\n./sub/c.txt");
    assert!(errors.is_empty());
}

#[test]
fn walk_errors_pass_through_to_the_error_channel() {
    let items = vec![
        Ok(entry("./a.txt", "a.txt", EntryType::File)),
        Err("sub: permission denied".to_string()),
        Ok(entry("./b.txt", "b.txt", EntryType::File)),
    ];
    let (matched, errors) = find_matching(&items, &Vec::new(), &Vec::new());
    assert_eq!(matched, vec!["./a.txt", "./b.txt"]);
    assert_eq!(errors, vec!["sub: permission denied"]);
}

#[test]
fn invalid_name_pattern_is_rejected_at_compile_time() {
    assert!(Pattern::new("(", false).is_none());
    assert!(Pattern::new("\\.txt$", false).is_some());
}
