use findgrep::grep::{
    find_files, find_lines, format_output, line_matches, prefix_needed, process_source,
    resolve_source, ReadOutcome,
};
use findgrep::pattern::Pattern;
use findgrep::text::{concat_str, format_count, join_lines};
use findgrep::walk::FileKind;

fn fox_lines() -> Vec<String> {
    vec!["fox\n".to_string(), "dog\n".to_string(), "fox jumps\n".to_string()]
}

#[test]
fn grep_keeps_matching_lines_without_prefix() {
    let pattern = Pattern::new("fox", false).unwrap();
    let matched = find_lines(&fox_lines(), &pattern, false);
    assert_eq!(matched, vec!["fox\n", "fox jumps\n"]);
    let rendered = format_output(&"file1".to_string(), &matched, false, false);
    assert_eq!(rendered, vec!["fox\n", "fox jumps\n"]);
}

#[test]
fn grep_invert_match_keeps_the_rest() {
    let pattern = Pattern::new("fox", false).unwrap();
    let matched = find_lines(&fox_lines(), &pattern, true);
    assert_eq!(matched, vec!["dog\n"]);
}

#[test]
fn invert_flag_flips_every_line() {
    let pattern = Pattern::new("fox", false).unwrap();
    for line in ["fox\n", "dog\n", "fox jumps\n", ""] {
        for invert in [false, true] {
            assert_eq!(
                line_matches(&pattern, line, invert),
                !line_matches(&pattern, line, !invert),
            );
        }
    }
}

#[test]
fn case_insensitive_pattern_folds_case() {
    let sensitive = Pattern::new("fox", false).unwrap();
    let insensitive = Pattern::new("fox", true).unwrap();
    assert!(!line_matches(&sensitive, "FOX\n", false));
    assert!(line_matches(&insensitive, "FOX\n", false));
}

#[test]
fn count_mode_prints_one_terminated_line() {
    let matched = vec!["fox\n".to_string(), "fox jumps\n".to_string()];
    let plain = format_output(&"file1".to_string(), &matched, true, false);
    assert_eq!(plain, vec!["2\n"]);
    let prefixed = format_output(&"file1".to_string(), &matched, true, true);
    assert_eq!(prefixed, vec!["file1:2\n"]);
    let none: Vec<String> = Vec::new();
    assert_eq!(format_output(&"f".to_string(), &none, true, false), vec!["0\n"]);
}

#[test]
fn counts_render_in_decimal() {
    assert_eq!(format_count(0), "0");
    assert_eq!(format_count(7), "7");
    assert_eq!(format_count(10), "10");
    assert_eq!(format_count(42), "42");
    assert_eq!(format_count(100), "100");
    assert_eq!(format_count(987654321), "987654321");
}

#[test]
fn prefix_rule_counts_all_resolved_sources() {
    assert!(!prefix_needed(0));
    assert!(!prefix_needed(1));
    assert!(prefix_needed(2));
}

#[test]
fn matched_lines_carry_source_prefix_for_several_sources() {
    let pattern = Pattern::new("fox", false).unwrap();
    let (out, errs) = process_source(
        &"file1".to_string(),
        ReadOutcome::Lines(fox_lines()),
        &pattern,
        false,
        false,
        true,
    );
    assert_eq!(out, vec!["file1:fox\n", "file1:fox jumps\n"]);
    assert!(errs.is_empty());
}

#[test]
fn open_failure_is_reported_and_isolated() {
    let pattern = Pattern::new("fox", false).unwrap();
    let (out, errs) = process_source(
        &"missing.txt".to_string(),
        ReadOutcome::OpenFailed("No such file or directory (os error 2)".to_string()),
        &pattern,
        false,
        false,
        true,
    );
    assert!(out.is_empty());
    assert_eq!(errs, vec!["missing.txt: No such file or directory (os error 2)"]);
}

#[test]
fn read_failure_is_reported_bare() {
    let pattern = Pattern::new("fox", false).unwrap();
    let (out, errs) = process_source(
        &"file1".to_string(),
        ReadOutcome::ReadFailed("stream did not contain valid UTF-8".to_string()),
        &pattern,
        false,
        false,
        false,
    );
    assert!(out.is_empty());
    assert_eq!(errs, vec!["stream did not contain valid UTF-8"]);
}

#[test]
fn stdin_sentinel_passes_through_unexamined() {
    let files = find_files(&vec!["-".to_string()], false);
    assert_eq!(files.len(), 1);
    assert_eq!(files[0].as_ref().unwrap(), "-");
}

#[test]
fn directory_without_recursive_is_rejected_and_run_continues() {
    let files = find_files(&vec![".".to_string(), "/proc/self/status".to_string()], false);
    assert_eq!(files.len(), 2);
    assert_eq!(files[0].as_ref().unwrap_err(), ". is a directory");
    assert_eq!(files[1].as_ref().unwrap(), "/proc/self/status");
}

#[test]
fn missing_source_is_an_error_while_present_sources_survive() {
    let files = find_files(
        &vec!["/proc/self/status".to_string(), "no-such-file-anywhere.txt".to_string()],
        false,
    );
    assert_eq!(files.len(), 2);
    assert_eq!(files[0].as_ref().unwrap(), "/proc/self/status");
    let err = files[1].as_ref().unwrap_err();
    assert!(err.starts_with("no-such-file-anywhere.txt: "));
}

#[test]
fn resolve_source_spells_out_each_outcome() {
    let dir_stat: Result<FileKind, String> = Ok(FileKind::Dir);
    let (outcomes, expand) = resolve_source(&"sub".to_string(), false, &dir_stat);
    assert!(!expand);
    assert_eq!(outcomes[0].as_ref().unwrap_err(), "sub is a directory");

    let (outcomes, expand) = resolve_source(&"sub".to_string(), true, &dir_stat);
    assert!(expand);
    assert!(outcomes.is_empty());

    let file_stat: Result<FileKind, String> = Ok(FileKind::File);
    let (outcomes, expand) = resolve_source(&"a.txt".to_string(), false, &file_stat);
    assert!(!expand);
    assert_eq!(outcomes[0].as_ref().unwrap(), "a.txt");

    let bad_stat: Result<FileKind, String> = Err("permission denied".to_string());
    let (outcomes, expand) = resolve_source(&"a.txt".to_string(), false, &bad_stat);
    assert!(!expand);
    assert_eq!(outcomes[0].as_ref().unwrap_err(), "a.txt: permission denied");
}

#[test]
fn text_helpers_concatenate_and_join() {
    assert_eq!(concat_str("a", "b"), "ab");
    assert_eq!(concat_str("", ""), "");
    let lines = vec!["x".to_string(), "y".to_string(), "z".to_string()];
    assert_eq!(join_lines(&lines), "x\ny\nz");
    let one = vec!["x".to_string()];
    assert_eq!(join_lines(&one), "x");
    let none: Vec<String> = Vec::new();
    assert_eq!(join_lines(&none), "");
}

#[test]
fn empty_stream_scans_to_nothing() {
    let pattern = Pattern::new("fox", false).unwrap();
    let no_lines: Vec<String> = Vec::new();
    assert_eq!(find_lines(&no_lines, &pattern, false), Vec::<String>::new());
    assert_eq!(find_lines(&no_lines, &pattern, true), Vec::<String>::new());
}
