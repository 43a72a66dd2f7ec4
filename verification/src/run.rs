//! A run as a whole, and what holds of every run.
//!
//! The loop of a run reads and writes files, so it stands outside this
//! library; what it decides it decides through `process_file` and
//! `RunSummary::record`.  This module says what such a run comes to over a
//! sequence of in-scope files, each read and, where due, written without
//! failure, and proves what holds of every such run.

use crate::file_processor::{content_after, file_rewrite, RewriteOutcome};
use crate::matcher::{regex_is_match, regex_replace_all};
use crate::report::{after_result, counted, FileResult, SummaryModel};
use regex::Regex;
use vstd::prelude::*;

verus! {

/// One in-scope file: its path and its content.
pub struct FileModel {
    pub path: Seq<char>,
    pub content: Seq<char>,
}

/// The summary at the end of a run over `files`.
pub open spec fn run_summary(
    regex: Regex,
    files: Seq<FileModel>,
    replacement: Seq<char>,
    dry_run: bool,
    verbose: bool,
) -> SummaryModel
    decreases files.len(),
{
    if files.len() == 0 {
        SummaryModel { processed: 0, modified: 0, dry_run }
    } else {
        counted(
            run_summary(regex, files.drop_last(), replacement, dry_run, verbose),
            file_rewrite(
                regex,
                files.last().path,
                files.last().content,
                replacement,
                dry_run,
                verbose,
            ).outcome,
        )
    }
}

/// The files as a run over `files` leaves them.
pub open spec fn run_files(
    regex: Regex,
    files: Seq<FileModel>,
    replacement: Seq<char>,
    dry_run: bool,
    verbose: bool,
) -> Seq<FileModel> {
    Seq::new(
        files.len(),
        |i: int|
            FileModel {
                path: files[i].path,
                content: content_after(
                    files[i].content,
                    file_rewrite(
                        regex,
                        files[i].path,
                        files[i].content,
                        replacement,
                        dry_run,
                        verbose,
                    ),
                ),
            },
    )
}

/// No-op write suppression.  Where the pattern occurs in a file but the
/// substituted content equals the content read, the file is not written, in
/// a dry run or outside one; yet its outcome says `matched`, and the summary
/// counts it as modified.
pub proof fn unchanged_content_is_counted_but_not_written(
    regex: Regex,
    path: Seq<char>,
    content: Seq<char>,
    replacement: Seq<char>,
    dry_run: bool,
    verbose: bool,
    summary: SummaryModel,
    outcome: RewriteOutcome,
)
    requires
        regex_is_match(regex, content),
        regex_replace_all(regex, content, replacement) == content,
        outcome@ == file_rewrite(regex, path, content, replacement, dry_run, verbose).outcome,
    ensures
        file_rewrite(regex, path, content, replacement, dry_run, verbose).write_back is None,
        outcome.matched,
        !outcome.changed,
        after_result(summary, FileResult::Completed(outcome)).modified == summary.modified + 1,
{
}

/// A file is written only where its content changes: whatever `process_file`
/// asks to be written differs from the content read.
pub proof fn only_changes_are_written(
    regex: Regex,
    path: Seq<char>,
    content: Seq<char>,
    replacement: Seq<char>,
    dry_run: bool,
    verbose: bool,
)
    ensures
        file_rewrite(regex, path, content, replacement, dry_run, verbose).write_back matches Some(
            text,
        ) ==> text != content,
{
}

/// Dry-run non-mutation.  A dry run leaves every file as it was, and its
/// summary counts what a real run over the same files counts.
pub proof fn dry_run_changes_nothing(
    regex: Regex,
    files: Seq<FileModel>,
    replacement: Seq<char>,
    verbose: bool,
)
    ensures
        run_files(regex, files, replacement, true, verbose) == files,
        run_summary(regex, files, replacement, true, verbose).processed == run_summary(
            regex,
            files,
            replacement,
            false,
            verbose,
        ).processed,
        run_summary(regex, files, replacement, true, verbose).modified == run_summary(
            regex,
            files,
            replacement,
            false,
            verbose,
        ).modified,
    decreases files.len(),
{
    if files.len() > 0 {
        dry_run_changes_nothing(regex, files.drop_last(), replacement, verbose);
    }
}

/// The summary of a run over files in none of which the pattern occurs
/// counts no file as modified, and the run leaves the files as they were.
pub proof fn run_without_occurrence(
    regex: Regex,
    files: Seq<FileModel>,
    replacement: Seq<char>,
    dry_run: bool,
    verbose: bool,
)
    requires
        forall|i: int|
            0 <= i < files.len() ==> !regex_is_match(regex, (#[trigger] files[i]).content),
    ensures
        run_summary(regex, files, replacement, dry_run, verbose).modified == 0,
        run_summary(regex, files, replacement, dry_run, verbose).processed == files.len(),
        run_files(regex, files, replacement, dry_run, verbose) == files,
    decreases files.len(),
{
    if files.len() > 0 {
        let fewer = files.drop_last();
        assert forall|i: int| 0 <= i < fewer.len() implies !regex_is_match(
            regex,
            (#[trigger] fewer[i]).content,
        ) by {
            assert(fewer[i] == files[i]);
        }
        run_without_occurrence(regex, fewer, replacement, dry_run, verbose);
    }
}

/// Idempotence under convergent replacement.  Where the substituted content
/// of each file holds no occurrence of the pattern any more, one real run
/// reaches a fixed point: a second run, dry or not, counts no file as
/// modified and leaves every file as the first run left it.
pub proof fn convergent_replacement_is_idempotent(
    regex: Regex,
    files: Seq<FileModel>,
    replacement: Seq<char>,
    verbose: bool,
    again_dry_run: bool,
    again_verbose: bool,
)
    requires
        forall|i: int|
            0 <= i < files.len() && regex_is_match(regex, (#[trigger] files[i]).content)
                ==> !regex_is_match(
                regex,
                regex_replace_all(regex, files[i].content, replacement),
            ),
    ensures
        ({
            let after = run_files(regex, files, replacement, false, verbose);
            &&& run_summary(regex, after, replacement, again_dry_run, again_verbose).modified == 0
            &&& run_files(regex, after, replacement, again_dry_run, again_verbose) == after
        }),
{
    let after = run_files(regex, files, replacement, false, verbose);
    assert forall|i: int| 0 <= i < after.len() implies !regex_is_match(
        regex,
        (#[trigger] after[i]).content,
    ) by {
        let content = files[i].content;
        if regex_is_match(regex, content) {
            assert(after[i].content == regex_replace_all(regex, content, replacement));
        } else {
            assert(after[i].content == content);
        }
    }
    run_without_occurrence(regex, after, replacement, again_dry_run, again_verbose);
}

} // verus!
