//! The run reporter: the two counters of a run and the lines that report them.

use crate::file_processor::{OutcomeModel, RewriteOutcome};
use crate::text::{decimal, decimal_text};
use vstd::prelude::*;
use vstd::string::*;

verus! {

/// The step at which a file could not be handled.
#[derive(Debug, Clone, Copy, PartialEq, Eq, Structural)]
pub enum FailureStage {
    /// The content could not be read as text.
    Read,
    /// The substituted content could not be written.
    Write,
}

/// A file that could not be handled.  It stops nothing: the run reports it
/// and goes on.
#[derive(Debug, PartialEq, Eq)]
pub struct FileFailure {
    /// The file that could not be handled.
    pub path: String,
    /// The step that failed.
    pub stage: FailureStage,
    /// What went wrong, in words.
    pub cause: String,
}

/// What the step is called in a failure line.
pub open spec fn stage_words(stage: FailureStage) -> Seq<char> {
    match stage {
        FailureStage::Read => "Failed to read file"@,
        FailureStage::Write => "Failed to write file"@,
    }
}

/// The line that reports a failed file: it names the file, the step and the
/// cause.
pub open spec fn failure_line(path: Seq<char>, stage: FailureStage, cause: Seq<char>) -> Seq<
    char,
> {
    "Error processing "@ + path + ": "@ + stage_words(stage) + ": "@ + cause
}

impl FileFailure {
    /// The line to print on the error channel.
    pub fn message(&self) -> (line: String)
        ensures
            line@ == failure_line(self.path@, self.stage, self.cause@),
    {
        let mut line = String::from_str("Error processing ");
        line.append(self.path.as_str());
        line.append(": ");
        match self.stage {
            FailureStage::Read => line.append("Failed to read file"),
            FailureStage::Write => line.append("Failed to write file"),
        }
        line.append(": ");
        line.append(self.cause.as_str());
        line
    }
}

/// How the handling of one in-scope file ended.
#[derive(Debug, PartialEq, Eq)]
pub enum FileResult {
    /// The content was read and, where a write was due, written.
    Completed(RewriteOutcome),
    /// Reading or writing failed.
    Failed(FileFailure),
}

impl FileResult {
    /// The result for a file whose content could not be read as text.
    pub fn unreadable(path: &str, cause: &str) -> (result: FileResult)
        ensures
            result matches FileResult::Failed(failure) && failure.path@ == path@ && failure.stage
                == FailureStage::Read && failure.cause@ == cause@,
    {
        FileResult::Failed(
            FileFailure {
                path: String::from_str(path),
                stage: FailureStage::Read,
                cause: String::from_str(cause),
            },
        )
    }

    /// The result for a file that was read, once what its rewrite asked for
    /// has been done.  `write_error` tells what went wrong with the write, if
    /// one was due and failed; such a file is a failed file, whatever its
    /// outcome says.
    pub fn settled(outcome: RewriteOutcome, write_error: Option<String>) -> (result: FileResult)
        ensures
            match write_error {
                None => result == FileResult::Completed(outcome),
                Some(cause) => result matches FileResult::Failed(failure) && failure.path
                    == outcome.path && failure.stage == FailureStage::Write && failure.cause
                    == cause,
            },
    {
        match write_error {
            None => FileResult::Completed(outcome),
            Some(cause) => FileResult::Failed(
                FileFailure { path: outcome.path, stage: FailureStage::Write, cause },
            ),
        }
    }
}

/// Mathematical value of a `RunSummary`.
pub struct SummaryModel {
    pub processed: nat,
    pub modified: nat,
    pub dry_run: bool,
}

/// The summary once one more completed file has been counted: as processed,
/// and as modified exactly when the pattern occurred in it, whether or not
/// its bytes changed.
pub open spec fn counted(summary: SummaryModel, outcome: OutcomeModel) -> SummaryModel {
    SummaryModel {
        processed: summary.processed + 1,
        modified: if outcome.matched {
            summary.modified + 1
        } else {
            summary.modified
        },
        dry_run: summary.dry_run,
    }
}

/// The summary once one more file has been handled.  A failed file counts
/// nowhere.
pub open spec fn after_result(summary: SummaryModel, result: FileResult) -> SummaryModel {
    match result {
        FileResult::Failed(_) => summary,
        FileResult::Completed(outcome) => counted(summary, outcome@),
    }
}

/// The line with the number of files processed.
pub open spec fn processed_line(count: nat) -> Seq<char> {
    "Total files processed: "@ + decimal(count)
}

/// The line with the number of files modified.
pub open spec fn modified_line(count: nat) -> Seq<char> {
    "Files modified: "@ + decimal(count)
}

/// The line that marks a dry run.
pub open spec fn dry_run_line() -> Seq<char> {
    "(Dry run - no files were actually modified)"@
}

/// The lines of the final report: an empty line, a heading, the two counters,
/// and after a dry run the line that says so.
pub open spec fn summary_lines(summary: SummaryModel) -> Seq<Seq<char>> {
    let lines = seq![
        Seq::empty(),
        "Summary:"@,
        processed_line(summary.processed),
        modified_line(summary.modified),
    ];
    if summary.dry_run {
        lines.push(dry_run_line())
    } else {
        lines
    }
}

/// The counters of one run.
#[derive(Debug, PartialEq, Eq)]
pub struct RunSummary {
    total_processed: u64,
    total_modified: u64,
    dry_run: bool,
}

impl View for RunSummary {
    type V = SummaryModel;

    closed spec fn view(&self) -> SummaryModel {
        SummaryModel {
            processed: self.total_processed as nat,
            modified: self.total_modified as nat,
            dry_run: self.dry_run,
        }
    }
}

impl RunSummary {
    /// No more files are counted as modified than as processed.
    pub open spec fn wf(&self) -> bool {
        self@.modified <= self@.processed
    }

    /// The summary of a run in which no file has been handled yet.
    pub fn new(dry_run: bool) -> (summary: RunSummary)
        ensures
            summary.wf(),
            summary@ == (SummaryModel { processed: 0, modified: 0, dry_run }),
    {
        RunSummary { total_processed: 0, total_modified: 0, dry_run }
    }

    /// The number of files read with success, matched or not.
    pub fn total_processed(&self) -> (count: u64)
        ensures
            count == self@.processed,
    {
        self.total_processed
    }

    /// The number of files in which the pattern occurred.
    pub fn total_modified(&self) -> (count: u64)
        ensures
            count == self@.modified,
    {
        self.total_modified
    }

    /// Whether the run leaves every file untouched.
    pub fn dry_run(&self) -> (dry: bool)
        ensures
            dry == self@.dry_run,
    {
        self.dry_run
    }

    /// Counts one more file.
    pub fn record(&mut self, result: &FileResult)
        requires
            old(self).wf(),
            old(self)@.processed < u64::MAX,
        ensures
            final(self).wf(),
            final(self)@ == after_result(old(self)@, *result),
    {
        match result {
            FileResult::Failed(_) => {},
            FileResult::Completed(outcome) => {
                self.total_processed = self.total_processed + 1;
                if outcome.matched {
                    self.total_modified = self.total_modified + 1;
                }
            },
        }
    }

    /// Writes the final report.
    pub fn render(&self) -> (lines: Vec<String>)
        ensures
            lines.deep_view() == summary_lines(self@),
    {
        let mut lines: Vec<String> = Vec::new();
        lines.push(String::new());
        lines.push(String::from_str("Summary:"));
        let mut processed = String::from_str("Total files processed: ");
        let number = decimal_text(self.total_processed);
        processed.append(number.as_str());
        lines.push(processed);
        let mut modified = String::from_str("Files modified: ");
        let number = decimal_text(self.total_modified);
        modified.append(number.as_str());
        lines.push(modified);
        if self.dry_run {
            lines.push(String::from_str("(Dry run - no files were actually modified)"));
        }
        lines
    }
}

} // verus!
