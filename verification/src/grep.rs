//! The line grepper: resolves the configured sources, scans each source's
//! lines against the pattern, and renders the matches or their count.
//!
//! Opening and reading a source is the caller's business; everything decided
//! here — which sources are used, which lines match, what is printed and
//! what is reported — is verified against the outcomes the caller hands in.

use vstd::prelude::*;
use crate::pattern::Pattern;
use crate::text::concat_str;
use crate::text::format_count;
use crate::text::spec_decimal;
use crate::walk::Entry;
use crate::walk::EntryType;
use crate::walk::FileKind;
use crate::walk::stat_path;
use crate::walk::walk_tree;
use vstd::string::StringExecFns;
use vstd::string::StrSliceExecFns;

verus! {

/// The grepper's configuration: the compiled pattern (its case flag baked in
/// at compilation), the sources in input order, and the three flags.
pub struct Config {
    pub pattern: Pattern,
    pub files: Vec<String>,
    pub recursive: bool,
    pub count: bool,
    pub invert_match: bool,
}

/// The line predicate: the pattern's verdict on the line, flipped by the
/// invert flag.
pub open spec fn spec_line_matches(p: Pattern, line: Seq<char>, invert: bool) -> bool {
    p.spec_matches(line) != invert
}

/// Decides [`spec_line_matches`].
pub fn line_matches(p: &Pattern, line: &str, invert: bool) -> (r: bool)
    ensures
        r == spec_line_matches(*p, line@, invert),
{
    p.is_match(line) != invert
}

/// Flipping the invert flag flips the line predicate: on every line and
/// every pattern, the inverted run keeps exactly the lines the plain run
/// drops.
pub proof fn lemma_line_matches_involution(p: Pattern, line: Seq<char>, invert: bool)
    ensures
        spec_line_matches(p, line, invert) == !spec_line_matches(p, line, !invert),
{
}

/// The lines on which the line predicate holds, in input order.
pub open spec fn spec_matching_lines(lines: Seq<Seq<char>>, p: Pattern, invert: bool) -> Seq<
    Seq<char>,
>
    decreases lines.len(),
{
    if lines.len() == 0 {
        Seq::empty()
    } else {
        let rest = spec_matching_lines(lines.drop_last(), p, invert);
        if spec_line_matches(p, lines.last(), invert) {
            rest.push(lines.last())
        } else {
            rest
        }
    }
}

/// Keeps the lines on which the line predicate holds, in input order. Each
/// line is expected as read, its terminator still attached.
pub fn find_lines(lines: &Vec<String>, pattern: &Pattern, invert_match: bool) -> (r: Vec<String>)
    ensures
        r.deep_view() == spec_matching_lines(lines.deep_view(), *pattern, invert_match),
{
    let ghost lv = lines.deep_view();
    let mut out: Vec<String> = Vec::new();
    let mut i: usize = 0;
    while i < lines.len()
        invariant
            0 <= i <= lines.len(),
            lv == lines.deep_view(),
            lv.len() == lines.len(),
            out.deep_view() == spec_matching_lines(lv.take(i as int), *pattern, invert_match),
        decreases lines.len() - i,
    {
        proof {
            assert(lv.take(i as int + 1).drop_last() =~= lv.take(i as int));
            assert(lv.take(i as int + 1).last() == lv[i as int]);
        }
        if line_matches(pattern, lines[i].as_str(), invert_match) {
            out.push(lines[i].clone());
        }
        proof {
            assert(out.deep_view() =~= spec_matching_lines(
                lv.take(i as int + 1), *pattern, invert_match));
        }
        i = i + 1;
    }
    proof {
        assert(lv.take(lines.len() as int) =~= lv);
    }
    out
}

/// The view of a sequence of per-source outcomes.
pub open spec fn spec_outcome_views(s: Seq<Result<String, String>>) -> Seq<
    Result<Seq<char>, Seq<char>>,
> {
    s.map_values(
        |x: Result<String, String>|
            match x {
                Ok(p) => Ok::<Seq<char>, Seq<char>>(p@),
                Err(m) => Err::<Seq<char>, Seq<char>>(m@),
            },
    )
}

proof fn lemma_outcome_views_add(a: Seq<Result<String, String>>, b: Seq<Result<String, String>>)
    ensures
        spec_outcome_views(a + b) =~= spec_outcome_views(a) + spec_outcome_views(b),
{
}

/// The per-file successes and per-subtree failures that a recursive walk
/// contributes: every regular file as a success, every traversal error as a
/// failure, directories and the rest dropped, in walk order.
pub open spec fn spec_files_of(items: Seq<Result<Entry, String>>) -> Seq<
    Result<Seq<char>, Seq<char>>,
>
    decreases items.len(),
{
    if items.len() == 0 {
        Seq::empty()
    } else {
        let rest = spec_files_of(items.drop_last());
        match items.last() {
            Ok(e) => if e.kind == EntryType::File {
                rest.push(Ok(e.path@))
            } else {
                rest
            },
            Err(m) => rest.push(Err(m@)),
        }
    }
}

/// Keeps the regular files and the traversal errors of a walk, as
/// [`spec_files_of`] says.
pub fn files_of(items: &Vec<Result<Entry, String>>) -> (r: Vec<Result<String, String>>)
    ensures
        spec_outcome_views(r@) == spec_files_of(items@),
{
    let mut out: Vec<Result<String, String>> = Vec::new();
    let mut i: usize = 0;
    while i < items.len()
        invariant
            0 <= i <= items.len(),
            spec_outcome_views(out@) == spec_files_of(items@.take(i as int)),
        decreases items.len() - i,
    {
        proof {
            assert(items@.take(i as int + 1).drop_last() =~= items@.take(i as int));
            assert(items@.take(i as int + 1).last() == items@[i as int]);
        }
        match &items[i] {
            Ok(e) => {
                if e.kind == EntryType::File {
                    out.push(Ok(e.path.clone()));
                }
            }
            Err(m) => {
                out.push(Err(m.clone()));
            }
        }
        proof {
            assert(spec_outcome_views(out@) =~= spec_files_of(items@.take(i as int + 1)));
        }
        i = i + 1;
    }
    proof {
        assert(items@.take(items.len() as int) =~= items@);
    }
    out
}

/// The standard-input sentinel test: whether the source is the one-character
/// name `-`.
pub fn is_stdin(path: &String) -> (r: bool)
    ensures
        r == (path@ == "-"@),
{
    proof {
        reveal_strlit("-");
    }
    let s = path.as_str();
    if s.unicode_len() == 1 {
        let c = s.get_char(0);
        proof {
            if c == '-' {
                assert(path@ =~= "-"@);
            }
        }
        c == '-'
    } else {
        false
    }
}

/// A stat outcome by value: what the path finally names, or the cause text
/// of the failure.
pub open spec fn spec_stat_view(stat: Result<FileKind, String>) -> Result<FileKind, Seq<char>> {
    match stat {
        Ok(k) => Ok(k),
        Err(e) => Err(e@),
    }
}

/// What one configured source contributes to the resolved sequence, given
/// the stat outcome for its path and — when a directory is walked — the walk
/// items beneath it:
/// the sentinel `-` passes through untouched and unexamined; a failed stat
/// becomes one failure `<path>: <cause>`; a directory without the recursive
/// flag becomes one failure `<path> is a directory`; a directory with it
/// contributes the walked files and traversal errors; a regular file passes
/// through as a success; anything else contributes nothing.
pub open spec fn spec_resolve_one(
    path: Seq<char>,
    recursive: bool,
    stat: Result<FileKind, Seq<char>>,
    walk: Seq<Result<Entry, String>>,
) -> Seq<Result<Seq<char>, Seq<char>>> {
    if path == "-"@ {
        seq![Ok(path)]
    } else {
        match stat {
            Err(cause) => seq![Err(path + ": "@ + cause)],
            Ok(FileKind::Dir) => if recursive {
                spec_files_of(walk)
            } else {
                seq![Err(path + " is a directory"@)]
            },
            Ok(FileKind::File) => seq![Ok(path)],
            Ok(FileKind::Other) => Seq::empty(),
        }
    }
}

/// The whole resolved sequence: the concatenation, in input order, of what
/// each configured source contributes.
pub open spec fn spec_find_files(
    paths: Seq<Seq<char>>,
    recursive: bool,
    stats: Seq<Result<FileKind, Seq<char>>>,
    walks: Seq<Seq<Result<Entry, String>>>,
) -> Seq<Result<Seq<char>, Seq<char>>>
    decreases paths.len(),
{
    if paths.len() == 0 {
        Seq::empty()
    } else {
        spec_find_files(paths.drop_last(), recursive, stats.drop_last(), walks.drop_last())
            + spec_resolve_one(paths.last(), recursive, stats.last(), walks.last())
    }
}

/// Decides what one source contributes from its stat outcome alone. The
/// second component asks the caller to walk the path: it is true exactly for
/// a directory under the recursive flag, and the first component is then
/// empty; otherwise the first component is the source's whole contribution,
/// as [`spec_resolve_one`] says with no walk items.
pub fn resolve_source(path: &String, recursive: bool, stat: &Result<FileKind, String>) -> (r: (
    Vec<Result<String, String>>,
    bool,
))
    ensures
        r.1 == (path@ != "-"@ && (*stat matches Ok(FileKind::Dir)) && recursive),
        r.1 ==> r.0@ =~= Seq::<Result<String, String>>::empty(),
        !r.1 ==> spec_outcome_views(r.0@) == spec_resolve_one(
            path@, recursive, spec_stat_view(*stat), Seq::empty()),
{
    let mut out: Vec<Result<String, String>> = Vec::new();
    if is_stdin(path) {
        out.push(Ok(path.clone()));
        proof {
            assert(spec_outcome_views(out@) =~= seq![Ok::<Seq<char>, Seq<char>>(path@)]);
        }
        return (out, false);
    }
    match stat {
        Err(cause) => {
            let msg = concat_str(concat_str(path.as_str(), ": ").as_str(), cause.as_str());
            out.push(Err(msg));
            proof {
                assert(spec_outcome_views(out@) =~= seq![
                    Err::<Seq<char>, Seq<char>>(path@ + ": "@ + cause@)]);
            }
            (out, false)
        }
        Ok(FileKind::Dir) => {
            if recursive {
                (out, true)
            } else {
                let msg = concat_str(path.as_str(), " is a directory");
                out.push(Err(msg));
                proof {
                    assert(spec_outcome_views(out@) =~= seq![
                        Err::<Seq<char>, Seq<char>>(path@ + " is a directory"@)]);
                }
                (out, false)
            }
        }
        Ok(FileKind::File) => {
            out.push(Ok(path.clone()));
            proof {
                assert(spec_outcome_views(out@) =~= seq![Ok::<Seq<char>, Seq<char>>(path@)]);
            }
            (out, false)
        }
        Ok(FileKind::Other) => {
            proof {
                assert(spec_outcome_views(out@) =~= Seq::<Result<Seq<char>, Seq<char>>>::empty());
            }
            (out, false)
        }
    }
}

/// Resolves the configured sources in input order, as [`spec_find_files`]
/// says: some sequence of stat outcomes and walk results — whatever the
/// filesystem held — explains the returned sequence. No failure stops the
/// run; each stays in place as that source's outcome.
pub fn find_files(paths: &Vec<String>, recursive: bool) -> (r: Vec<Result<String, String>>)
    ensures
        exists|stats: Seq<Result<FileKind, Seq<char>>>, walks: Seq<Seq<Result<Entry, String>>>|
            stats.len() == paths@.len() && walks.len() == paths@.len()
                && spec_outcome_views(r@) == #[trigger] spec_find_files(
                paths.deep_view(), recursive, stats, walks),
{
    let ghost mut gstats: Seq<Result<FileKind, Seq<char>>> = Seq::empty();
    let ghost mut gwalks: Seq<Seq<Result<Entry, String>>> = Seq::empty();
    let mut out: Vec<Result<String, String>> = Vec::new();
    let mut i: usize = 0;
    while i < paths.len()
        invariant
            0 <= i <= paths.len(),
            gstats.len() == i,
            gwalks.len() == i,
            paths.deep_view().len() == paths@.len(),
            spec_outcome_views(out@) == spec_find_files(
                paths.deep_view().take(i as int), recursive, gstats, gwalks),
        decreases paths.len() - i,
    {
        let dash = is_stdin(&paths[i]);
        let st: Result<FileKind, String> = if dash {
            Ok(FileKind::Other)
        } else {
            stat_path(&paths[i])
        };
        let (mut chunk, expand) = resolve_source(&paths[i], recursive, &st);
        let ghost prev = out@;
        let ghost prev_stats = gstats;
        let ghost prev_walks = gwalks;
        let ghost added: Seq<Result<String, String>>;
        let ghost delta: Seq<Result<Seq<char>, Seq<char>>>;
        if expand {
            let items = walk_tree(&paths[i]);
            let mut files = files_of(&items);
            proof {
                added = files@;
                delta = spec_files_of(items@);
                gstats = gstats.push(spec_stat_view(st));
                gwalks = gwalks.push(items@);
            }
            out.append(&mut files);
        } else {
            proof {
                added = chunk@;
                delta = spec_outcome_views(chunk@);
                gstats = gstats.push(spec_stat_view(st));
                gwalks = gwalks.push(Seq::empty());
            }
            out.append(&mut chunk);
        }
        proof {
            let pv = paths.deep_view();
            assert(pv[i as int] == paths@[i as int]@);
            assert(out@ == prev + added);
            lemma_outcome_views_add(prev, added);
            assert(spec_outcome_views(out@) == spec_outcome_views(prev) + delta);
            assert(delta == spec_resolve_one(pv[i as int], recursive, gstats.last(),
                gwalks.last()));
            assert(pv.take(i as int + 1).drop_last() =~= pv.take(i as int));
            assert(pv.take(i as int + 1).last() == pv[i as int]);
            assert(gstats.drop_last() =~= prev_stats);
            assert(gwalks.drop_last() =~= prev_walks);
            assert(spec_outcome_views(out@) == spec_find_files(pv.take(i as int + 1), recursive,
                gstats, gwalks));
        }
        i = i + 1;
    }
    proof {
        assert(paths.deep_view().take(paths@.len() as int) =~= paths.deep_view());
    }
    out
}

/// The prefixing rule: a source name is prepended to every printed line
/// exactly when more than one source is in play for the whole run. The
/// count is the total number of resolved sources, decided once.
pub fn prefix_needed(num_sources: usize) -> (r: bool)
    ensures
        r == (num_sources > 1),
{
    num_sources > 1
}

/// A printed line, prefixed `<name>:` when several sources are in play.
pub open spec fn spec_prefixed(name: Seq<char>, line: Seq<char>, multiple: bool) -> Seq<char> {
    if multiple {
        name + seq![':'] + line
    } else {
        line
    }
}

/// Prefixes one line as [`spec_prefixed`] says.
pub fn prefix_line(name: &String, line: &str, multiple: bool) -> (r: String)
    ensures
        r@ == spec_prefixed(name@, line@, multiple),
{
    if multiple {
        let r = concat_str(concat_str(name.as_str(), ":").as_str(), line);
        proof {
            reveal_strlit(":");
            assert(":"@ =~= seq![':']);
            assert(r@ =~= spec_prefixed(name@, line@, multiple));
        }
        r
    } else {
        line.to_owned()
    }
}

/// What one scanned source prints: in count mode one line holding the
/// number of matched lines and a newline, otherwise the matched lines
/// themselves, each already carrying its own terminator; every line is
/// prefixed with the source name exactly when several sources are in play.
pub open spec fn spec_grep_output(
    name: Seq<char>,
    matched: Seq<Seq<char>>,
    count: bool,
    multiple: bool,
) -> Seq<Seq<char>> {
    if count {
        seq![spec_prefixed(name, spec_decimal(matched.len()) + seq!['\n'], multiple)]
    } else {
        spec_prefixed_all(name, matched, multiple)
    }
}

/// Every line of `lines`, prefixed as [`spec_prefixed`] says.
pub open spec fn spec_prefixed_all(
    name: Seq<char>,
    lines: Seq<Seq<char>>,
    multiple: bool,
) -> Seq<Seq<char>> {
    Seq::new(lines.len(), |j: int| spec_prefixed(name, lines[j], multiple))
}

/// Renders one source's matched lines as [`spec_grep_output`] says.
pub fn format_output(name: &String, matched: &Vec<String>, count: bool, multiple: bool) -> (r: Vec<
    String,
>)
    ensures
        r.deep_view() == spec_grep_output(name@, matched.deep_view(), count, multiple),
{
    let mut out: Vec<String> = Vec::new();
    if count {
        let mut digits = format_count(matched.len());
        digits.append("\n");
        proof {
            reveal_strlit("\n");
            assert("\n"@ =~= seq!['\n']);
        }
        let line = prefix_line(name, digits.as_str(), multiple);
        out.push(line);
        proof {
            assert(out.deep_view() =~= spec_grep_output(
                name@, matched.deep_view(), count, multiple));
        }
        out
    } else {
        let ghost mv = matched.deep_view();
        let mut i: usize = 0;
        while i < matched.len()
            invariant
                0 <= i <= matched.len(),
                mv == matched.deep_view(),
                mv.len() == matched.len(),
                out@.len() == i,
                out.deep_view() == spec_prefixed_all(name@, mv.take(i as int), multiple),
            decreases matched.len() - i,
        {
            let line = prefix_line(name, matched[i].as_str(), multiple);
            out.push(line);
            proof {
                let prefixed = spec_prefixed_all(name@, mv.take(i as int + 1), multiple);
                assert(out@.len() == i + 1);
                assert(out.deep_view().len() == i + 1);
                assert(prefixed.len() == i + 1);
                assert forall|j: int| 0 <= j < i + 1 implies out.deep_view()[j] == prefixed[j] by {
                    assert(mv.take(i as int + 1)[j] == mv[j]);
                    if j < i {
                        assert(mv.take(i as int)[j] == mv[j]);
                        assert(out.deep_view()[j] == spec_prefixed_all(
                            name@, mv.take(i as int), multiple)[j]);
                    } else {
                        assert(mv[i as int] == matched@[i as int]@);
                        assert(out.deep_view()[j] == line@);
                    }
                }
                assert(out.deep_view() =~= prefixed);
            }
            i = i + 1;
        }
        proof {
            assert(mv.take(matched.len() as int) =~= mv);
        }
        out
    }
}

/// How reading one resolved source went: its lines, each with its original
/// terminator (the stream's final line may lack one), or the cause text of
/// the failure to open it, or the message of a failure met while reading.
pub enum ReadOutcome {
    Lines(Vec<String>),
    OpenFailed(String),
    ReadFailed(String),
}

/// Scans and renders one source from whatever came of reading it: lines are
/// scanned and rendered with nothing reported; an open failure prints
/// nothing and reports `<name>: <cause>`; a read failure prints nothing and
/// reports its message bare. One source's failure is its own: the caller
/// goes on with the rest either way.
pub fn process_source(
    name: &String,
    outcome: ReadOutcome,
    pattern: &Pattern,
    invert_match: bool,
    count: bool,
    multiple: bool,
) -> (r: (Vec<String>, Vec<String>))
    ensures
        (outcome matches ReadOutcome::Lines(lines) ==> r.0.deep_view() == spec_grep_output(
            name@, spec_matching_lines(lines.deep_view(), *pattern, invert_match), count, multiple)
            && r.1@.len() == 0),
        (outcome matches ReadOutcome::OpenFailed(cause) ==> r.0@.len() == 0 && r.1.deep_view()
            =~= seq![name@ + ": "@ + cause@]),
        (outcome matches ReadOutcome::ReadFailed(msg) ==> r.0@.len() == 0 && r.1.deep_view()
            =~= seq![msg@]),
{
    match outcome {
        ReadOutcome::Lines(lines) => {
            let matched = find_lines(&lines, pattern, invert_match);
            let rendered = format_output(name, &matched, count, multiple);
            (rendered, Vec::new())
        }
        ReadOutcome::OpenFailed(cause) => {
            let msg = concat_str(concat_str(name.as_str(), ": ").as_str(), cause.as_str());
            let mut errs: Vec<String> = Vec::new();
            errs.push(msg);
            proof {
                assert(errs.deep_view() =~= seq![name@ + ": "@ + cause@]);
            }
            (Vec::new(), errs)
        }
        ReadOutcome::ReadFailed(msg) => {
            let mut errs: Vec<String> = Vec::new();
            errs.push(msg);
            proof {
                assert(errs.deep_view() =~= seq![errs@[0]@]);
            }
            (Vec::new(), errs)
        }
    }
}

} // verus!
