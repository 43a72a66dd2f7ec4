//! The file rewriter: what happens to one file whose content has been read.
//!
//! Nothing here touches a file.  `process_file` takes the content as text and
//! answers with a `FileRewrite`: the outcome for the run's summary, the text to
//! write back if the file is to change on disk, and the lines to print.

use crate::matcher::{
    find_matches, is_match, regex_is_match, regex_matches, regex_replace_all, replace_all,
};
use crate::text::{decimal, decimal_text, same_text};
use regex::Regex;
use vstd::prelude::*;
use vstd::string::*;

verus! {

/// The result of looking at one file, as the run's summary consumes it.
#[derive(Debug, PartialEq, Eq)]
pub struct RewriteOutcome {
    /// The file, as it was named to `process_file`.
    pub path: String,
    /// Whether the pattern occurs in the content.
    pub matched: bool,
    /// Whether the substituted content differs from the content read.
    pub changed: bool,
    /// The number of occurrences; counted in verbose mode only.
    pub match_count: Option<usize>,
}

/// What is to be done about one file.
#[derive(Debug, PartialEq, Eq)]
pub struct FileRewrite {
    /// What the run's summary is told of the file.
    pub outcome: RewriteOutcome,
    /// The content to write to the file; `None` leaves the file untouched.
    pub write_back: Option<String>,
    /// The lines to print for this file, in order.
    pub notice: Vec<String>,
}

/// Mathematical value of a `RewriteOutcome`.
pub struct OutcomeModel {
    pub path: Seq<char>,
    pub matched: bool,
    pub changed: bool,
    pub match_count: Option<nat>,
}

/// Mathematical value of a `FileRewrite`.
pub struct RewriteModel {
    pub outcome: OutcomeModel,
    pub write_back: Option<Seq<char>>,
    pub notice: Seq<Seq<char>>,
}

impl View for RewriteOutcome {
    type V = OutcomeModel;

    open spec fn view(&self) -> OutcomeModel {
        OutcomeModel {
            path: self.path@,
            matched: self.matched,
            changed: self.changed,
            match_count: match self.match_count {
                Some(n) => Some(n as nat),
                None => None,
            },
        }
    }
}

impl View for FileRewrite {
    type V = RewriteModel;

    open spec fn view(&self) -> RewriteModel {
        RewriteModel {
            outcome: self.outcome@,
            write_back: match self.write_back {
                Some(text) => Some(text@),
                None => None,
            },
            notice: self.notice.deep_view(),
        }
    }
}

/// The line that shows one occurrence beside the replacement template;
/// `index` counts from 1.
pub open spec fn preview_line(index: nat, occurrence: Seq<char>, replacement: Seq<char>) -> Seq<
    char,
> {
    "  Match "@ + decimal(index) + ": \""@ + occurrence + "\" -> \""@ + replacement + "\""@
}

/// One preview line for each occurrence, in order.
pub open spec fn preview_lines(occurrences: Seq<Seq<char>>, replacement: Seq<char>) -> Seq<
    Seq<char>,
> {
    Seq::new(
        occurrences.len(),
        |i: int| preview_line((i + 1) as nat, occurrences[i], replacement),
    )
}

/// The line that names the file.
pub open spec fn file_line(path: Seq<char>) -> Seq<char> {
    "File: "@ + path
}

/// The line that gives the number of occurrences.
pub open spec fn count_line(count: nat) -> Seq<char> {
    "Found "@ + decimal(count) + " matches"@
}

/// The lines printed for a file in which the pattern occurs: nothing unless
/// the run is verbose or dry; an empty line and the file's name; in verbose
/// mode the number of occurrences; in a verbose dry run each occurrence too.
pub open spec fn notice_lines(
    path: Seq<char>,
    occurrences: Seq<Seq<char>>,
    replacement: Seq<char>,
    dry_run: bool,
    verbose: bool,
) -> Seq<Seq<char>> {
    if !verbose && !dry_run {
        Seq::empty()
    } else if !verbose {
        seq![Seq::empty(), file_line(path)]
    } else if !dry_run {
        seq![Seq::empty(), file_line(path), count_line(occurrences.len())]
    } else {
        seq![Seq::empty(), file_line(path), count_line(occurrences.len())] + preview_lines(
            occurrences,
            replacement,
        )
    }
}

/// What is done about a file in which the pattern does not occur: nothing.
pub open spec fn unmatched_rewrite(path: Seq<char>) -> RewriteModel {
    RewriteModel {
        outcome: OutcomeModel { path, matched: false, changed: false, match_count: None },
        write_back: None,
        notice: Seq::empty(),
    }
}

/// What is done about a file in which the pattern occurs, given the
/// substituted content `replaced` and the texts of the occurrences.  The file
/// is written only outside a dry run, and only if `replaced` differs from
/// `content`.  The occurrences count in verbose mode only.
pub open spec fn matched_rewrite(
    path: Seq<char>,
    content: Seq<char>,
    replaced: Seq<char>,
    occurrences: Seq<Seq<char>>,
    replacement: Seq<char>,
    dry_run: bool,
    verbose: bool,
) -> RewriteModel {
    RewriteModel {
        outcome: OutcomeModel {
            path,
            matched: true,
            changed: replaced != content,
            match_count: if verbose {
                Some(occurrences.len())
            } else {
                None
            },
        },
        write_back: if !dry_run && replaced != content {
            Some(replaced)
        } else {
            None
        },
        notice: notice_lines(path, occurrences, replacement, dry_run, verbose),
    }
}

/// The content of a file once what `rewrite` asks for has been done to it.
pub open spec fn content_after(content: Seq<char>, rewrite: RewriteModel) -> Seq<char> {
    match rewrite.write_back {
        Some(text) => text,
        None => content,
    }
}

/// What is done about a file, from the matcher's three answers on its content.
pub open spec fn rewrite_model(
    path: Seq<char>,
    content: Seq<char>,
    matched: bool,
    replaced: Seq<char>,
    occurrences: Seq<Seq<char>>,
    replacement: Seq<char>,
    dry_run: bool,
    verbose: bool,
) -> RewriteModel {
    if matched {
        matched_rewrite(path, content, replaced, occurrences, replacement, dry_run, verbose)
    } else {
        unmatched_rewrite(path)
    }
}

/// What is done about the file at `path` with the given content, under the
/// compiled pattern `regex`.
pub open spec fn file_rewrite(
    regex: Regex,
    path: Seq<char>,
    content: Seq<char>,
    replacement: Seq<char>,
    dry_run: bool,
    verbose: bool,
) -> RewriteModel {
    rewrite_model(
        path,
        content,
        regex_is_match(regex, content),
        regex_replace_all(regex, content, replacement),
        regex_matches(regex, content),
        replacement,
        dry_run,
        verbose,
    )
}

fn file_line_text(path: &str) -> (line: String)
    ensures
        line@ == file_line(path@),
{
    let mut line = String::from_str("File: ");
    line.append(path);
    line
}

fn count_line_text(count: usize) -> (line: String)
    ensures
        line@ == count_line(count as nat),
{
    let mut line = String::from_str("Found ");
    let number = decimal_text(count as u64);
    line.append(number.as_str());
    line.append(" matches");
    line
}

fn preview_line_text(index: usize, occurrence: &str, replacement: &str) -> (line: String)
    ensures
        line@ == preview_line(index as nat, occurrence@, replacement@),
{
    let mut line = String::from_str("  Match ");
    let number = decimal_text(index as u64);
    line.append(number.as_str());
    line.append(": \"");
    line.append(occurrence);
    line.append("\" -> \"");
    line.append(replacement);
    line.append("\"");
    line
}

/// Writes the lines to print for a file in which the pattern occurs.
fn notice_text(
    path: &str,
    occurrences: &Vec<String>,
    replacement: &str,
    dry_run: bool,
    verbose: bool,
) -> (lines: Vec<String>)
    ensures
        lines.deep_view() == notice_lines(
            path@,
            occurrences.deep_view(),
            replacement@,
            dry_run,
            verbose,
        ),
{
    let mut lines: Vec<String> = Vec::new();
    if !verbose && !dry_run {
        return lines;
    }
    lines.push(String::new());
    lines.push(file_line_text(path));
    if !verbose {
        return lines;
    }
    lines.push(count_line_text(occurrences.len()));
    let ghost head = seq![
        Seq::<char>::empty(),
        file_line(path@),
        count_line(occurrences.len() as nat),
    ];
    if !dry_run {
        return lines;
    }
    let ghost previews = preview_lines(occurrences.deep_view(), replacement@);
    let mut i: usize = 0;
    while i < occurrences.len()
        invariant
            i <= occurrences.len(),
            previews == preview_lines(occurrences.deep_view(), replacement@),
            lines.deep_view() == head + previews.take(i as int),
        decreases occurrences.len() - i,
    {
        let ghost before = lines.deep_view();
        let line = preview_line_text(i + 1, occurrences[i].as_str(), replacement);
        lines.push(line);
        assert(lines.deep_view() == before.push(line@));
        i += 1;
    }
    lines
}

/// Settles a file in which the pattern does not occur.
pub fn leave_unmatched(path: &str) -> (rewrite: FileRewrite)
    ensures
        rewrite@ == unmatched_rewrite(path@),
{
    let rewrite = FileRewrite {
        outcome: RewriteOutcome {
            path: String::from_str(path),
            matched: false,
            changed: false,
            match_count: None,
        },
        write_back: None,
        notice: Vec::new(),
    };
    assert(rewrite.notice.deep_view() == Seq::<Seq<char>>::empty());
    rewrite
}

/// Settles a file in which the pattern occurs, given what the matcher made of
/// its content: the substituted text and, in verbose mode, the occurrences.
pub fn settle_rewrite(
    path: &str,
    content: &str,
    replaced: String,
    occurrences: Vec<String>,
    replacement: &str,
    dry_run: bool,
    verbose: bool,
) -> (rewrite: FileRewrite)
    ensures
        rewrite@ == matched_rewrite(
            path@,
            content@,
            replaced@,
            occurrences.deep_view(),
            replacement@,
            dry_run,
            verbose,
        ),
{
    let notice = notice_text(path, &occurrences, replacement, dry_run, verbose);
    let changed = !same_text(replaced.as_str(), content);
    let match_count = if verbose {
        Some(occurrences.len())
    } else {
        None
    };
    let write_back = if !dry_run && changed {
        Some(replaced)
    } else {
        None
    };
    FileRewrite {
        outcome: RewriteOutcome {
            path: String::from_str(path),
            matched: true,
            changed,
            match_count,
        },
        write_back,
        notice,
    }
}

/// Decides what is done about one file whose content has been read.
///
/// The pattern is tested on the content.  Without an occurrence the file is
/// left alone.  With one, every occurrence is substituted and the outcome
/// says `matched`; the file is to be written back only outside a dry run and
/// only if the substituted content differs from the content read.
pub fn process_file(
    path: &str,
    content: &str,
    regex: &Regex,
    replacement: &str,
    dry_run: bool,
    verbose: bool,
) -> (rewrite: FileRewrite)
    ensures
        rewrite@ == file_rewrite(*regex, path@, content@, replacement@, dry_run, verbose),
        rewrite.outcome.matched == regex_is_match(*regex, content@),
        dry_run ==> rewrite.write_back is None,
        rewrite.write_back matches Some(text) ==> text@ != content@,
{
    if !is_match(regex, content) {
        return leave_unmatched(path);
    }
    let replaced = replace_all(regex, content, replacement);
    let occurrences = if verbose {
        find_matches(regex, content)
    } else {
        Vec::new()
    };
    settle_rewrite(path, content, replaced, occurrences, replacement, dry_run, verbose)
}

} // verus!
