//! Source files and positions in them.

use vstd::prelude::*;
use vstd::string::StringExecFns;

verus! {

/// A Rust source file within a source tree: its path, for reporting, and its
/// full text. It is made once and never changed; mutants refer to it.
#[derive(Debug, PartialEq, Eq)]
pub struct SourceFile {
    /// Path of the file, as it is shown in listings.
    pub path: String,
    /// Full text of the file.
    pub code: String,
}

/// The mathematical content of a [`SourceFile`].
pub struct SourceFileView {
    pub path: Seq<char>,
    pub code: Seq<char>,
}

impl View for SourceFile {
    type V = SourceFileView;

    open spec fn view(&self) -> SourceFileView {
        SourceFileView { path: self.path@, code: self.code@ }
    }
}

impl SourceFile {
    /// A source file with the given path and text.
    pub fn new(path: &str, code: &str) -> (r: SourceFile)
        ensures
            r@.path == path@,
            r@.code == code@,
    {
        SourceFile { path: String::from_str(path), code: String::from_str(code) }
    }

    /// Path of the file, as it is shown in listings.
    pub fn path(&self) -> (r: &str)
        ensures
            r@ == self@.path,
    {
        self.path.as_str()
    }

    /// Full text of the file.
    pub fn code(&self) -> (r: &str)
        ensures
            r@ == self@.code,
    {
        self.code.as_str()
    }
}

/// A position in a source file. Lines and columns both count from 1, and
/// columns count characters.
#[derive(Clone, Copy, Debug, PartialEq, Eq, Structural)]
pub struct LineColumn {
    pub line: usize,
    pub column: usize,
}

/// The column that counts from 1 where `column` counts from 0.
pub open spec fn one_based(column: usize) -> usize {
    if column < usize::MAX {
        (column + 1) as usize
    } else {
        column
    }
}

impl LineColumn {
    /// The position with the given line, counted from 1, and the given
    /// column, counted from 0 as a tokenizer does.
    pub fn from_zero_based_column(line: usize, column: usize) -> (r: LineColumn)
        ensures
            r == (LineColumn { line, column: one_based(column) }),
    {
        let column = if column < usize::MAX {
            column + 1
        } else {
            column
        };
        LineColumn { line, column }
    }
}

/// A range of source text: from `start` up to, and not including, `end`.
#[derive(Clone, Copy, Debug, PartialEq, Eq, Structural)]
pub struct Span {
    pub start: LineColumn,
    pub end: LineColumn,
}

impl Span {
    /// The span between two positions.
    pub fn new(start: LineColumn, end: LineColumn) -> (r: Span)
        ensures
            r == (Span { start, end }),
    {
        Span { start, end }
    }
}

} // verus!
