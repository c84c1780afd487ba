//! What the command does with a formatted file.

use std::collections::BTreeSet;
use crate::ts::TsResult;
use vstd::prelude::*;

verus! {

broadcast use vstd::string::group_string_axioms;

/// The command's options.
pub struct Opt {
    /// Print the parser's syntax tree.
    pub ast: bool,
    /// Report over-wide lines and lines that end in whitespace.
    pub check: bool,
    /// Print the IR.
    pub debug: bool,
    /// Print the IR in its simple form.
    pub print: bool,
    /// Write the result back to the source file.
    pub overwrite: bool,
    /// The file or directory to format (every file below a directory,
    /// recursively); standard input where there is none.
    pub input: Option<String>,
}

/// What to do with the result of formatting a file.
pub enum Action {
    /// Write the text back to the file.
    Overwrite(String),
    /// Report the file, with its over-wide lines and its lines that end in whitespace.
    Report { exceed_lines: BTreeSet<u32>, trailing_ws_lines: BTreeSet<u32> },
    /// Nothing to report.
    Quiet,
    /// Print the text.
    Print(String),
}

/// Overwriting wins over checking, and checking over printing; a check
/// reports a file only where some line is over-wide or ends in whitespace.
pub fn fmt_action(r: TsResult, overwrite: bool, check: bool) -> (a: Action)
    ensures
        overwrite ==> (a matches Action::Overwrite(s) && s@ == r.s@),
        !overwrite && check && r.exceed_lines@.is_empty() && r.trailing_ws_lines@.is_empty() ==> a is Quiet,
        !overwrite && check && !(r.exceed_lines@.is_empty() && r.trailing_ws_lines@.is_empty()) ==> (
        a matches Action::Report { exceed_lines, trailing_ws_lines } && exceed_lines@ == r.exceed_lines@
            && trailing_ws_lines@ == r.trailing_ws_lines@),
        !overwrite && !check ==> (a matches Action::Print(s) && s@ == r.s@),
{
    if overwrite {
        Action::Overwrite(r.s)
    } else if check {
        if r.exceed_lines.is_empty() && r.trailing_ws_lines.is_empty() {
            Action::Quiet
        } else {
            Action::Report { exceed_lines: r.exceed_lines, trailing_ws_lines: r.trailing_ws_lines }
        }
    } else {
        Action::Print(r.s)
    }
}

} // verus!
