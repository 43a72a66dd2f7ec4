//! The ignore resolver.
//!
//! Ignore patterns come from a built-in list and from ignore files: plain
//! text, one glob per line, with blank lines and `#` comments skipped.  All
//! sources add to one flat list, from which one set is built; no source takes
//! a pattern of another away.

use crate::globs::{
    builder_add, builder_build, builder_globs, builder_new, glob_is_match, glob_new, glob_parsed,
    globs_build, set_globs, set_is_match,
};
use crate::paths::{relative_path, relative_to};
use crate::text::{
    chars_of, copy_range, pieces, same_text, split, split_bounds, trim, trim_bounds,
};
use globset::{Glob, GlobSet, GlobSetBuilder};
use vstd::prelude::*;
use vstd::string::*;

verus! {

/// Whether a line of an ignore file holds a pattern: it does unless it is
/// blank or its first character after the leading whitespace is `#`.
pub open spec fn is_pattern_line(line: Seq<char>) -> bool {
    trim(line).len() > 0 && trim(line).first() != '#'
}

/// The patterns among `lines`, each without the whitespace around it.
pub open spec fn patterns_in(lines: Seq<Seq<char>>) -> Seq<Seq<char>> {
    lines.filter(|line: Seq<char>| is_pattern_line(line)).map_values(|line: Seq<char>| trim(line))
}

/// The patterns that the text of an ignore file holds, in order.
pub open spec fn ignore_patterns(content: Seq<char>) -> Seq<Seq<char>> {
    patterns_in(split(content, '\n'))
}

/// Taking one more line into account adds its pattern, if it holds one.
proof fn lemma_patterns_in_push(lines: Seq<Seq<char>>, line: Seq<char>)
    ensures
        patterns_in(lines.push(line)) == if is_pattern_line(line) {
            patterns_in(lines).push(trim(line))
        } else {
            patterns_in(lines)
        },
{
    let keep = |line: Seq<char>| is_pattern_line(line);
    let clean = |line: Seq<char>| trim(line);
    lines.lemma_filter_push(line, keep);
    if is_pattern_line(line) {
        lines.filter(keep).lemma_push_map_commute(clean, line);
    }
}

/// Reads the patterns out of the text of an ignore file.
pub fn parse_ignore_patterns(content: &str) -> (patterns: Vec<String>)
    ensures
        patterns.deep_view() == ignore_patterns(content@),
{
    let chars = chars_of(content);
    let bounds = split_bounds(&chars, '\n');
    let ghost lines = split(content@, '\n');
    let mut patterns: Vec<String> = Vec::new();
    let mut i: usize = 0;
    while i < bounds.len()
        invariant
            i <= bounds.len(),
            chars@ == content@,
            lines == pieces(chars@, bounds@),
            forall|j: int|
                0 <= j < bounds.len() ==> (#[trigger] bounds[j]).0 <= bounds[j].1 <= chars.len(),
            patterns.deep_view() == patterns_in(lines.take(i as int)),
        decreases bounds.len() - i,
    {
        let (lo, hi) = bounds[i];
        let ghost line = lines[i as int];
        let (a, b) = trim_bounds(&chars, lo, hi);
        proof {
            assert(lines.take(i + 1) == lines.take(i as int).push(line));
            lemma_patterns_in_push(lines.take(i as int), line);
        }
        if a < b && chars[a] != '#' {
            patterns.push(copy_range(&chars, a, b));
        }
        i += 1;
    }
    assert(lines.take(i as int) == lines);
    patterns
}

/// The patterns that every run ignores: what lies in a version-control
/// directory, in a build-output directory or in a dependency directory, at
/// any depth.
pub open spec fn builtin_patterns() -> Seq<Seq<char>> {
    seq![
        "**/.git/**"@,
        "**/.svn/**"@,
        "**/.hg/**"@,
        "**/target/**"@,
        "**/node_modules/**"@,
    ]
}

/// What stands for a file's name where a built-in pattern is reported.
pub open spec fn builtin_origin() -> Seq<char> {
    "<built-in>"@
}

/// Lists the built-in patterns.
pub fn default_ignore_patterns() -> (patterns: Vec<String>)
    ensures
        patterns.deep_view() == builtin_patterns(),
{
    let mut patterns: Vec<String> = Vec::new();
    patterns.push(String::from_str("**/.git/**"));
    patterns.push(String::from_str("**/.svn/**"));
    patterns.push(String::from_str("**/.hg/**"));
    patterns.push(String::from_str("**/target/**"));
    patterns.push(String::from_str("**/node_modules/**"));
    patterns
}

/// The text of one ignore file and where it was read from.
#[derive(Debug, PartialEq, Eq)]
pub struct IgnoreSource {
    /// The file's location, as error messages name it.
    pub origin: String,
    /// The file's whole text.
    pub content: String,
}

/// Why no ignore set could be made.  Either way the run does not start.
#[derive(Debug, PartialEq, Eq)]
pub enum IgnoreError {
    /// A line of an ignore file is no glob.
    InvalidPattern {
        /// The file that holds the line.
        file: String,
        /// The pattern as the line gives it.
        pattern: String,
    },
    /// Every pattern is a glob, but the set of them could not be built.
    BuildFailed,
}

/// The text of the diagnostic for a line that is no glob.
pub open spec fn invalid_pattern_message(file: Seq<char>, pattern: Seq<char>) -> Seq<char> {
    "Invalid glob pattern in "@ + file + ": "@ + pattern
}

/// The text of the diagnostic for a set that could not be built.
pub open spec fn build_failed_message() -> Seq<char> {
    "Failed to build ignore pattern set"@
}

impl IgnoreError {
    /// The one-line diagnostic for this error.
    pub fn message(&self) -> (text: String)
        ensures
            text@ == match *self {
                IgnoreError::InvalidPattern { file, pattern } => invalid_pattern_message(
                    file@,
                    pattern@,
                ),
                IgnoreError::BuildFailed => build_failed_message(),
            },
    {
        match self {
            IgnoreError::InvalidPattern { file, pattern } => {
                let mut text = String::from_str("Invalid glob pattern in ");
                text.append(file.as_str());
                text.append(": ");
                text.append(pattern.as_str());
                text
            },
            IgnoreError::BuildFailed => String::from_str("Failed to build ignore pattern set"),
        }
    }
}

/// The first of `patterns` that is no glob, if there is one.
pub open spec fn first_invalid(patterns: Seq<Seq<char>>) -> Option<Seq<char>>
    decreases patterns.len(),
{
    if patterns.len() == 0 {
        None
    } else if glob_parsed(patterns.first()) is None {
        Some(patterns.first())
    } else {
        first_invalid(patterns.drop_first())
    }
}

/// The patterns that come before the first that is no glob.
pub open spec fn valid_prefix(patterns: Seq<Seq<char>>) -> Seq<Seq<char>>
    decreases patterns.len(),
{
    if patterns.len() == 0 || glob_parsed(patterns.first()) is None {
        Seq::empty()
    } else {
        seq![patterns.first()] + valid_prefix(patterns.drop_first())
    }
}

/// The glob of each pattern, in order.
pub open spec fn globs_of(patterns: Seq<Seq<char>>) -> Seq<Glob> {
    Seq::new(patterns.len(), |i: int| glob_parsed(patterns[i]).unwrap())
}

/// Where every pattern is a glob, none is left out of the valid prefix.
pub proof fn lemma_valid_prefix_whole(patterns: Seq<Seq<char>>)
    requires
        first_invalid(patterns) is None,
    ensures
        valid_prefix(patterns) == patterns,
    decreases patterns.len(),
{
    if patterns.len() > 0 {
        lemma_valid_prefix_whole(patterns.drop_first());
    }
}

/// Adds the glob of each pattern to `builder`, in order, and stops at the
/// first pattern that is no glob.
fn add_patterns(origin: &str, patterns: &Vec<String>, builder: &mut GlobSetBuilder) -> (added:
    Result<(), IgnoreError>)
    ensures
        builder_globs(*final(builder)) == builder_globs(*old(builder)) + globs_of(
            valid_prefix(patterns.deep_view()),
        ),
        match added {
            Ok(()) => first_invalid(patterns.deep_view()) is None,
            Err(e) => {
                &&& e matches IgnoreError::InvalidPattern { file, pattern }
                &&& file@ == origin@
                &&& first_invalid(patterns.deep_view()) == Some(pattern@)
            },
        },
{
    let ghost all = patterns.deep_view();
    let ghost start = builder_globs(*builder);
    assert(all.skip(0) == all);
    let mut k: usize = 0;
    while k < patterns.len()
        invariant
            k <= patterns.len(),
            all == patterns.deep_view(),
            all.len() == patterns.len(),
            start == builder_globs(*old(builder)),
            first_invalid(all) == first_invalid(all.skip(k as int)),
            valid_prefix(all) == all.take(k as int) + valid_prefix(all.skip(k as int)),
            builder_globs(*builder) == start + globs_of(all.take(k as int)),
        decreases patterns.len() - k,
    {
        assert(all.skip(k as int).drop_first() == all.skip(k + 1));
        match glob_new(patterns[k].as_str()) {
            Ok(glob) => {
                builder_add(builder, glob);
            },
            Err(_) => {
                return Err(
                    IgnoreError::InvalidPattern {
                        file: String::from_str(origin),
                        pattern: patterns[k].clone(),
                    },
                );
            },
        }
        k += 1;
    }
    Ok(())
}

/// Adds the patterns of one ignore file to `builder`.
///
/// `path` names the file and `content` is its text.  The globs of its
/// patterns are added in order.  The first pattern that is no glob stops the
/// loading: the error names the file and the pattern, and the builder keeps
/// the globs of the patterns before it.
pub fn load_ignore_file(path: &str, content: &str, builder: &mut GlobSetBuilder) -> (loaded:
    Result<(), IgnoreError>)
    ensures
        builder_globs(*final(builder)) == builder_globs(*old(builder)) + globs_of(
            valid_prefix(ignore_patterns(content@)),
        ),
        match loaded {
            Ok(()) => first_invalid(ignore_patterns(content@)) is None,
            Err(e) => {
                &&& e matches IgnoreError::InvalidPattern { file, pattern }
                &&& file@ == path@
                &&& first_invalid(ignore_patterns(content@)) == Some(pattern@)
            },
        },
{
    let patterns = parse_ignore_patterns(content);
    add_patterns(path, &patterns, builder)
}

/// The patterns of the ignore files `sources`, one file after the other.
pub open spec fn source_patterns(sources: Seq<IgnoreSource>) -> Seq<Seq<char>>
    decreases sources.len(),
{
    if sources.len() == 0 {
        Seq::empty()
    } else {
        ignore_patterns(sources.first().content@) + source_patterns(sources.drop_first())
    }
}

/// Every pattern of a run: the built-in ones, then those of the ignore files.
pub open spec fn combined_patterns(sources: Seq<IgnoreSource>) -> Seq<Seq<char>> {
    builtin_patterns() + source_patterns(sources)
}

/// The first ignore file that holds a line which is no glob, with that line.
pub open spec fn first_offence(sources: Seq<IgnoreSource>) -> Option<(Seq<char>, Seq<char>)>
    decreases sources.len(),
{
    if sources.len() == 0 {
        None
    } else {
        match first_invalid(ignore_patterns(sources.first().content@)) {
            Some(pattern) => Some((sources.first().origin@, pattern)),
            None => first_offence(sources.drop_first()),
        }
    }
}

/// The first pattern of a run that is no glob, with the name of its source.
/// The built-in patterns come first.
pub open spec fn run_offence(sources: Seq<IgnoreSource>) -> Option<(Seq<char>, Seq<char>)> {
    match first_invalid(builtin_patterns()) {
        Some(pattern) => Some((builtin_origin(), pattern)),
        None => first_offence(sources),
    }
}

/// Builds the one ignore set of a run from the built-in patterns and from the
/// ignore files that were found, in the order given.
///
/// A pattern that is no glob aborts: the error names the first such pattern
/// and its file.  Otherwise the set holds the glob of every pattern, unless
/// the set cannot be built of them.
pub fn build_ignore_set(sources: &Vec<IgnoreSource>) -> (built: Result<GlobSet, IgnoreError>)
    ensures
        match built {
            Ok(set) => {
                &&& run_offence(sources@) is None
                &&& globs_build(globs_of(combined_patterns(sources@)))
                &&& set_globs(set) == globs_of(combined_patterns(sources@))
            },
            Err(IgnoreError::InvalidPattern { file, pattern }) => run_offence(sources@) == Some(
                (file@, pattern@),
            ),
            Err(IgnoreError::BuildFailed) => {
                &&& run_offence(sources@) is None
                &&& !globs_build(globs_of(combined_patterns(sources@)))
            },
        },
{
    let mut builder = builder_new();
    let defaults = default_ignore_patterns();
    match add_patterns("<built-in>", &defaults, &mut builder) {
        Err(e) => {
            return Err(e);
        },
        Ok(()) => {},
    }
    proof {
        lemma_valid_prefix_whole(builtin_patterns());
        assert(sources@.skip(0) == sources@);
    }
    let mut i: usize = 0;
    while i < sources.len()
        invariant
            i <= sources.len(),
            first_invalid(builtin_patterns()) is None,
            first_offence(sources@) == first_offence(sources@.skip(i as int)),
            source_patterns(sources@) == source_patterns(sources@.take(i as int))
                + source_patterns(sources@.skip(i as int)),
            builder_globs(builder) == globs_of(
                builtin_patterns() + source_patterns(sources@.take(i as int)),
            ),
        decreases sources.len() - i,
    {
        assert(sources@.skip(i as int).drop_first() == sources@.skip(i + 1));
        match load_ignore_file(
            sources[i].origin.as_str(),
            sources[i].content.as_str(),
            &mut builder,
        ) {
            Err(e) => {
                return Err(e);
            },
            Ok(()) => {},
        }
        proof {
            lemma_valid_prefix_whole(ignore_patterns(sources[i as int].content@));
            lemma_source_patterns_push(sources@.take(i as int), sources[i as int]);
            assert(sources@.take(i + 1) == sources@.take(i as int).push(sources[i as int]));
        }
        i += 1;
    }
    match builder_build(&builder) {
        Ok(set) => Ok(set),
        Err(_) => Err(IgnoreError::BuildFailed),
    }
}

/// The patterns of the files `sources` followed by one more file.
proof fn lemma_source_patterns_push(sources: Seq<IgnoreSource>, last: IgnoreSource)
    ensures
        source_patterns(sources.push(last)) == source_patterns(sources) + ignore_patterns(
            last.content@,
        ),
    decreases sources.len(),
{
    let more = sources.push(last);
    if sources.len() == 0 {
        assert(source_patterns(more.drop_first()) == Seq::<Seq<char>>::empty());
    } else {
        lemma_source_patterns_push(sources.drop_first(), last);
        assert(more.drop_first() == sources.drop_first().push(last));
    }
}

/// Whether one of `globs` matches `path`.
pub open spec fn any_glob_matches(globs: Seq<Glob>, path: Seq<char>) -> bool {
    exists|i: int| 0 <= i < globs.len() && glob_is_match(#[trigger] globs[i], path)
}

/// Whether a set of `globs` rules out the file at `path` in a scan of `root`:
/// the path as seen from `root` matches one of the globs.  A path that does
/// not lie in `root` is never ruled out.
pub open spec fn ignores(globs: Seq<Glob>, path: Seq<char>, root: Seq<char>) -> bool {
    match relative_path(path, root) {
        Some(relative) => any_glob_matches(globs, relative),
        None => false,
    }
}

/// Tells whether `ignore_set` rules out the file at `path` in a scan of
/// `base_dir`.
pub fn should_ignore(path: &str, base_dir: &str, ignore_set: &GlobSet) -> (ignored: bool)
    ensures
        ignored == ignores(set_globs(*ignore_set), path@, base_dir@),
{
    match relative_to(path, base_dir) {
        Some(relative) => set_is_match(ignore_set, relative.as_str()),
        None => false,
    }
}

/// The name of an ignore file.
pub open spec fn ignore_file_name() -> Seq<char> {
    ".rr_ignore"@
}

/// The path of the entry `name` of the directory `dir`.
pub open spec fn join_path(dir: Seq<char>, name: Seq<char>) -> Seq<char> {
    if dir.len() == 0 || dir.last() == '/' {
        dir + name
    } else {
        dir + seq!['/'] + name
    }
}

/// Where ignore files are looked for, in the order in which they are loaded:
/// in the working directory; in the scan root, if that is another directory
/// and its ignore file another file; in the home directory, if there is one.
pub open spec fn ignore_locations(
    cwd: Seq<char>,
    root: Seq<char>,
    home: Option<Seq<char>>,
) -> Seq<Seq<char>> {
    let here = join_path(cwd, ignore_file_name());
    let there = join_path(root, ignore_file_name());
    let local = if root != cwd && there != here {
        seq![here, there]
    } else {
        seq![here]
    };
    match home {
        Some(dir) => local.push(join_path(dir, ignore_file_name())),
        None => local,
    }
}

/// Writes the path of the ignore file of the directory `dir`.
fn ignore_file_in(dir: &str) -> (path: String)
    ensures
        path@ == join_path(dir@, ignore_file_name()),
{
    let chars = chars_of(dir);
    let mut path = String::from_str(dir);
    if chars.len() > 0 && chars[chars.len() - 1] != '/' {
        path.append("/");
        proof {
            reveal_strlit("/");
        }
    }
    path.append(".rr_ignore");
    path
}

/// Lists where the ignore files of a run are looked for.  A location is only
/// a candidate: the file there need not exist.
pub fn ignore_file_locations(cwd: &str, root: &str, home: Option<&str>) -> (locations: Vec<String>)
    ensures
        locations.deep_view() == ignore_locations(
            cwd@,
            root@,
            match home {
                Some(dir) => Some(dir@),
                None => None,
            },
        ),
{
    let mut locations: Vec<String> = Vec::new();
    let here = ignore_file_in(cwd);
    let there = ignore_file_in(root);
    let add_root = !same_text(root, cwd) && !same_text(there.as_str(), here.as_str());
    locations.push(here);
    if add_root {
        locations.push(there);
    }
    match home {
        Some(dir) => {
            locations.push(ignore_file_in(dir));
        },
        None => {},
    }
    locations
}

/// Ignore sets add up: the globs of two lists together rule out exactly the
/// paths that the one list or the other rules out.
pub proof fn ignore_lists_add_up(a: Seq<Glob>, b: Seq<Glob>, path: Seq<char>, root: Seq<char>)
    ensures
        ignores(a + b, path, root) <==> ignores(a, path, root) || ignores(b, path, root),
{
    if let Some(relative) = relative_path(path, root) {
        if any_glob_matches(a, relative) {
            let i = choose|i: int| 0 <= i < a.len() && glob_is_match(#[trigger] a[i], relative);
            assert((a + b)[i] == a[i]);
        }
        if any_glob_matches(b, relative) {
            let i = choose|i: int| 0 <= i < b.len() && glob_is_match(#[trigger] b[i], relative);
            assert((a + b)[a.len() + i] == b[i]);
        }
        if any_glob_matches(a + b, relative) {
            let i = choose|i: int|
                0 <= i < (a + b).len() && glob_is_match(#[trigger] (a + b)[i], relative);
            assert(i < a.len() ==> (a + b)[i] == a[i]);
            assert(i >= a.len() ==> (a + b)[i] == b[i - a.len()]);
        }
    }
}

/// Whether the patterns of the ignore file `source` alone rule out the file
/// at `path` in a scan of `root`.
pub open spec fn source_ignores(source: IgnoreSource, path: Seq<char>, root: Seq<char>) -> bool {
    ignores(globs_of(ignore_patterns(source.content@)), path, root)
}

/// The patterns of a list of ignore files rule out a path exactly when those
/// of one of the files do.
proof fn lemma_some_source_ignores(sources: Seq<IgnoreSource>, path: Seq<char>, root: Seq<char>)
    ensures
        ignores(globs_of(source_patterns(sources)), path, root) <==> exists|i: int|
            0 <= i < sources.len() && source_ignores(#[trigger] sources[i], path, root),
    decreases sources.len(),
{
    if sources.len() > 0 {
        let first = ignore_patterns(sources.first().content@);
        let rest = sources.drop_first();
        lemma_some_source_ignores(rest, path, root);
        ignore_lists_add_up(globs_of(first), globs_of(source_patterns(rest)), path, root);
        assert(globs_of(first + source_patterns(rest)) == globs_of(first) + globs_of(
            source_patterns(rest),
        ));
        if source_ignores(sources.first(), path, root) {
            assert(source_ignores(sources[0], path, root));
        }
        if exists|i: int| 0 <= i < rest.len() && source_ignores(#[trigger] rest[i], path, root) {
            let i = choose|i: int|
                0 <= i < rest.len() && source_ignores(#[trigger] rest[i], path, root);
            assert(source_ignores(sources[i + 1], path, root));
        }
        if exists|i: int|
            0 <= i < sources.len() && source_ignores(#[trigger] sources[i], path, root) {
            let i = choose|i: int|
                0 <= i < sources.len() && source_ignores(#[trigger] sources[i], path, root);
            assert(i > 0 ==> source_ignores(rest[i - 1], path, root));
        }
    }
}

/// All sources are enforced together: the ignore set of a run rules out a
/// path exactly when the built-in patterns do or the patterns of one of the
/// ignore files do.
pub proof fn every_source_is_enforced(
    sources: Seq<IgnoreSource>,
    path: Seq<char>,
    root: Seq<char>,
)
    ensures
        ignores(globs_of(combined_patterns(sources)), path, root) <==> (ignores(
            globs_of(builtin_patterns()),
            path,
            root,
        ) || exists|i: int|
            0 <= i < sources.len() && source_ignores(#[trigger] sources[i], path, root)),
{
    lemma_some_source_ignores(sources, path, root);
    ignore_lists_add_up(
        globs_of(builtin_patterns()),
        globs_of(source_patterns(sources)),
        path,
        root,
    );
    assert(globs_of(combined_patterns(sources)) == globs_of(builtin_patterns()) + globs_of(
        source_patterns(sources),
    ));
}

/// Taking a source away only shrinks what is ignored.  A path that the run
/// without the `i`-th ignore file rules out, the run with it rules out too;
/// and a path that the ignore files alone rule out, the run with the built-in
/// patterns rules out too.
pub proof fn removing_a_source_only_shrinks(
    sources: Seq<IgnoreSource>,
    i: int,
    path: Seq<char>,
    root: Seq<char>,
)
    requires
        0 <= i < sources.len(),
    ensures
        ignores(globs_of(combined_patterns(sources.remove(i))), path, root) ==> ignores(
            globs_of(combined_patterns(sources)),
            path,
            root,
        ),
        ignores(globs_of(source_patterns(sources)), path, root) ==> ignores(
            globs_of(combined_patterns(sources)),
            path,
            root,
        ),
{
    let fewer = sources.remove(i);
    every_source_is_enforced(sources, path, root);
    every_source_is_enforced(fewer, path, root);
    lemma_some_source_ignores(sources, path, root);
    if exists|j: int| 0 <= j < fewer.len() && source_ignores(#[trigger] fewer[j], path, root) {
        let j = choose|j: int|
            0 <= j < fewer.len() && source_ignores(#[trigger] fewer[j], path, root);
        assert(j < i ==> source_ignores(sources[j], path, root));
        assert(j >= i ==> source_ignores(sources[j + 1], path, root));
    }
}

} // verus!
