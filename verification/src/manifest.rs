//! The concatenation manifest: the text that tells the encoder which files
//! to join, one directive per line and in playing order.

use crate::text::joined;
use vstd::prelude::*;
use vstd::string::*;

verus! {

/// The directive that names one input file. The path stands between single
/// quotes as it is: a quote inside the path is not escaped.
pub open spec fn directive(path: Seq<char>) -> Seq<char> {
    "file '"@ + path + "'"@
}

/// A directive with the line feed that ends its line.
pub open spec fn manifest_line(path: Seq<char>) -> Seq<char> {
    directive(path).push('\n')
}

/// The manifest of a list of paths: their lines, joined in the list's order.
/// The manifest of no path is the empty text.
pub open spec fn manifest(paths: Seq<Seq<char>>) -> Seq<char> {
    paths.map_values(|path: Seq<char>| manifest_line(path)).flatten()
}

/// The manifest grows by one line when a path is added at the end.
pub proof fn manifest_push(paths: Seq<Seq<char>>, path: Seq<char>)
    ensures
        manifest(paths.push(path)) == manifest(paths) + manifest_line(path),
{
    let line = |p: Seq<char>| manifest_line(p);
    assert(paths.push(path).map_values(line) =~= paths.map_values(line).push(manifest_line(path)));
    paths.map_values(line).lemma_flatten_push(manifest_line(path));
}

/// The manifest is the first path's line followed by the manifest of the rest.
pub proof fn manifest_unfold(paths: Seq<Seq<char>>)
    requires
        paths.len() > 0,
    ensures
        manifest(paths) == manifest_line(paths[0]) + manifest(paths.drop_first()),
{
    let line = |p: Seq<char>| manifest_line(p);
    assert(paths.map_values(line).drop_first() =~= paths.drop_first().map_values(line));
}

/// A manifest is made of whole lines: it is empty or ends with a line feed.
pub proof fn manifest_ends_its_lines(paths: Seq<Seq<char>>)
    ensures
        paths.len() == 0 ==> manifest(paths) == Seq::<char>::empty(),
        paths.len() > 0 ==> manifest(paths).len() > 0 && manifest(paths).last() == '\n',
{
    if paths.len() > 0 {
        assert(paths.drop_last().push(paths.last()) =~= paths);
        manifest_push(paths.drop_last(), paths.last());
    }
}

/// Appends the manifest line of `path` to `out`.
pub fn append_manifest_line(out: &mut String, path: &str)
    ensures
        final(out)@ == old(out)@ + manifest_line(path@),
{
    out.append("file '");
    out.append(path);
    out.append("'");
    out.append("\n");
    proof {
        reveal_strlit("\n");
    }
}

/// Writes the manifest of `files` as one text.
pub fn build_manifest(files: &Vec<String>) -> (text: String)
    ensures
        text@ == manifest(files.deep_view()),
{
    let mut text = String::new();
    let mut i: usize = 0;
    while i < files.len()
        invariant
            i <= files.len(),
            text@ == manifest(files.deep_view().take(i as int)),
        decreases files.len() - i,
    {
        append_manifest_line(&mut text, files[i].as_str());
        proof {
            let paths = files.deep_view();
            manifest_push(paths.take(i as int), paths[i as int]);
            assert(paths.take(i as int).push(paths[i as int]) =~= paths.take(i + 1));
        }
        i += 1;
    }
    assert(files.deep_view().take(i as int) =~= files.deep_view());
    text
}

/// Why a manifest file could not be made ready. Each variant carries the
/// description of the failure as the system gave it.
#[derive(Debug, PartialEq, Eq)]
pub enum BuildError {
    /// No temporary file could be created.
    CreateFailed(String),
    /// The manifest could not be written to the file.
    WriteFailed(String),
    /// The file could not be kept under a lasting path.
    PersistFailed(String),
}

impl BuildError {
    /// The reason as it is reported: what failed, then the system's description.
    pub open spec fn spec_reason(self) -> Seq<char> {
        match self {
            BuildError::CreateFailed(detail) => "Failed to create temp file: "@ + detail@,
            BuildError::WriteFailed(detail) => "Failed to write to temp file: "@ + detail@,
            BuildError::PersistFailed(detail) => "Failed to keep temp file: "@ + detail@,
        }
    }

    /// The reason as a string.
    pub fn reason(&self) -> (text: String)
        ensures
            text@ == self.spec_reason(),
    {
        match self {
            BuildError::CreateFailed(detail) => joined("Failed to create temp file: ", detail.as_str()),
            BuildError::WriteFailed(detail) => joined("Failed to write to temp file: ", detail.as_str()),
            BuildError::PersistFailed(detail) => joined("Failed to keep temp file: ", detail.as_str()),
        }
    }
}

/// The number of characters before the first line feed of `text`, or the
/// length of `text` where it holds none.
pub open spec fn first_line_len(text: Seq<char>) -> nat
    decreases text.len(),
{
    if text.len() == 0 || text[0] == '\n' {
        0
    } else {
        1 + first_line_len(text.drop_first())
    }
}

/// The lines of a text. A line feed ends a line and belongs to none; what
/// follows the last line feed is a line if it is not empty.
pub open spec fn lines(text: Seq<char>) -> Seq<Seq<char>>
    decreases text.len(),
{
    if text.len() == 0 {
        Seq::empty()
    } else {
        let n = first_line_len(text) as int;
        if n < text.len() {
            seq![text.take(n)] + lines(text.skip(n + 1))
        } else {
            seq![text]
        }
    }
}

/// A text that holds no line feed stays on one line.
pub open spec fn on_one_line(text: Seq<char>) -> bool {
    forall|i: int| 0 <= i < text.len() ==> #[trigger] text[i] != '\n'
}

proof fn first_line_of_terminated(line: Seq<char>, rest: Seq<char>)
    requires
        on_one_line(line),
    ensures
        first_line_len(line.push('\n') + rest) == line.len(),
    decreases line.len(),
{
    let text = line.push('\n') + rest;
    if line.len() > 0 {
        assert(text.drop_first() =~= line.drop_first().push('\n') + rest);
        first_line_of_terminated(line.drop_first(), rest);
    }
}

proof fn lines_of_terminated(line: Seq<char>, rest: Seq<char>)
    requires
        on_one_line(line),
    ensures
        lines(line.push('\n') + rest) == seq![line] + lines(rest),
{
    let text = line.push('\n') + rest;
    first_line_of_terminated(line, rest);
    assert(text.take(line.len() as int) =~= line);
    assert(text.skip(line.len() as int + 1) =~= rest);
}

proof fn directive_on_one_line(path: Seq<char>)
    requires
        on_one_line(path),
    ensures
        on_one_line(directive(path)),
{
    reveal_strlit("file '");
    reveal_strlit("'");
}

/// Read back line by line, a manifest gives one directive for each path, in
/// the order of the paths, and nothing else, provided that no path holds a
/// line feed.
pub proof fn manifest_round_trip(paths: Seq<Seq<char>>)
    requires
        forall|i: int| 0 <= i < paths.len() ==> on_one_line(#[trigger] paths[i]),
    ensures
        lines(manifest(paths)).len() == paths.len(),
        forall|i: int|
            0 <= i < paths.len() ==> #[trigger] lines(manifest(paths))[i] == directive(paths[i]),
    decreases paths.len(),
{
    if paths.len() > 0 {
        let rest = paths.drop_first();
        manifest_unfold(paths);
        directive_on_one_line(paths[0]);
        lines_of_terminated(directive(paths[0]), manifest(rest));
        manifest_round_trip(rest);
    }
}

} // verus!
