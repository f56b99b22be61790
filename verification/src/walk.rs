//! The filesystem as the library sees it.
//!
//! Traversal itself is the work of the walkdir crate; everything it reports
//! about one filesystem object is carried into verified code as an [`Entry`]
//! of plain values. Nothing is promised about what a walk returns: what is on
//! disk is not a function of the arguments, so the callers' contracts hold of
//! every outcome.

use vstd::prelude::*;

verus! {

/// The type of one traversed filesystem object, told by the object itself:
/// a symbolic link counts as `Link` whatever it points to.
#[derive(Clone, Copy, PartialEq, Eq, Structural, Debug)]
pub enum EntryType {
    Dir,
    File,
    Link,
    Other,
}

/// What a path finally names once links are followed, as a stat reports it.
#[derive(Clone, Copy, PartialEq, Eq, Structural, Debug)]
pub enum FileKind {
    Dir,
    File,
    Other,
}

/// One filesystem object met during traversal: its full path, its base name
/// (the last path component) and its type.
pub struct Entry {
    pub path: String,
    pub name: String,
    pub kind: EntryType,
}

/// The mathematical value of an [`Entry`].
pub struct EntryView {
    pub path: Seq<char>,
    pub name: Seq<char>,
    pub kind: EntryType,
}

impl View for Entry {
    type V = EntryView;

    open spec fn view(&self) -> EntryView {
        EntryView { path: self.path@, name: self.name@, kind: self.kind }
    }
}

/// Relies on walkdir::WalkDir: iterating it yields an item for every object
/// of the tree rooted at `path`, the root itself included, and an error for
/// each subtree that could not be read, without stopping at one; an item's
/// type reports a symbolic link by the link itself.
#[verifier::external_body]
pub fn walk_tree(path: &String) -> (r: Vec<Result<Entry, String>>) {
    let mut out: Vec<Result<Entry, String>> = Vec::new();
    for item in walkdir::WalkDir::new(path.as_str()) {
        out.push(match item {
            Ok(e) => {
                let t = e.file_type();
                let kind = if t.is_symlink() { EntryType::Link } else if t.is_dir() { EntryType::Dir } else if t.is_file() { EntryType::File } else { EntryType::Other };
                let name = e.file_name().to_string_lossy().into_owned();
                Ok(Entry { path: e.path().display().to_string(), name, kind })
            }
            Err(e) => Err(e.to_string()),
        });
    }
    out
}

/// Relies on walkdir::WalkDir with maximum depth 0 and followed links: its
/// single item is the root entry bearing the type of what the path finally
/// names, or the error met while reading the path (a missing path among
/// them); the error's own I/O cause is kept when it has one.
#[verifier::external_body]
pub fn stat_path(path: &String) -> (r: Result<FileKind, String>) {
    match walkdir::WalkDir::new(path.as_str()).follow_links(true).max_depth(0).into_iter().next() {
        Some(Ok(e)) => {
            let t = e.file_type();
            Ok(if t.is_dir() { FileKind::Dir } else if t.is_file() { FileKind::File } else { FileKind::Other })
        }
        Some(Err(e)) => Err(match e.io_error() {
            Some(cause) => cause.to_string(),
            None => e.to_string(),
        }),
        None => Err(String::from("path yielded no entry")),
    }
}

} // verus!
