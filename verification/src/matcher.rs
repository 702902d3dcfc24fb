//! The ignore matcher: gitignore-style patterns rooted at the workspace.

use vstd::prelude::*;
use crate::text::{lines_of, split_lines_without_bom, texts, without_bom};

verus! {

#[verifier::external_type_specification]
#[verifier::external_body]
pub struct ExGitignoreBuilder(ignore::gitignore::GitignoreBuilder);

#[verifier::external_type_specification]
#[verifier::external_body]
pub struct ExGitignore(ignore::gitignore::Gitignore);

/// The directory that the builder was made for.
pub uninterp spec fn builder_root(builder: ignore::gitignore::GitignoreBuilder) -> Seq<char>;

/// The lines that the builder has taken so far, oldest first.
pub uninterp spec fn builder_lines(builder: ignore::gitignore::GitignoreBuilder) -> Seq<Seq<char>>;

/// The directory that the matcher matches relative to.
pub uninterp spec fn matcher_root(matcher: ignore::gitignore::Gitignore) -> Seq<char>;

/// The lines that the matcher was built from, oldest first.
pub uninterp spec fn matcher_lines(matcher: ignore::gitignore::Gitignore) -> Seq<Seq<char>>;

/// Whether a line of an ignore file can be taken: it is a comment, blank, or
/// a glob that parses.
pub uninterp spec fn line_accepted(line: Seq<char>) -> bool;

/// Whether the globs of the lines can be compiled into one matcher.
pub uninterp spec fn lines_compile(lines: Seq<Seq<char>>) -> bool;

/// Whether a matcher for `root` that was built from `lines` says of `path`
/// that it is ignored: the last glob that matches the path decides, and it is
/// no whitelist glob.
pub uninterp spec fn ignores(root: Seq<char>, lines: Seq<Seq<char>>, path: Seq<char>, is_dir: bool) -> bool;

/// Calls `GitignoreBuilder::new`: a builder for `root` without any line.
#[verifier::external_body]
fn gitignore_builder(root: &str) -> (builder: ignore::gitignore::GitignoreBuilder)
    ensures
        builder_root(builder) == root@,
        builder_lines(builder) == Seq::<Seq<char>>::empty(),
{
    ignore::gitignore::GitignoreBuilder::new(root)
}

/// Calls `GitignoreBuilder::add_line` for a line that comes from no file, and
/// says whether the line was taken. A line that was taken is the last one of
/// the builder; after a line that was not, the builder is as before.
#[verifier::external_body]
fn gitignore_add_line(builder: &mut ignore::gitignore::GitignoreBuilder, line: &str) -> (taken: bool)
    ensures
        taken == line_accepted(line@),
        builder_root(*final(builder)) == builder_root(*old(builder)),
        taken ==> builder_lines(*final(builder)) == builder_lines(*old(builder)).push(line@),
        !taken ==> builder_lines(*final(builder)) == builder_lines(*old(builder)),
{
    builder.add_line(None, line).is_ok()
}

/// Calls `GitignoreBuilder::build`: a matcher for the builder's root and
/// lines where their globs compile together, and `None` where they do not.
#[verifier::external_body]
fn gitignore_build(builder: &ignore::gitignore::GitignoreBuilder) -> (res: Option<ignore::gitignore::Gitignore>)
    ensures
        res is Some <==> lines_compile(builder_lines(*builder)),
        res matches Some(matcher) ==> matcher_root(matcher) == builder_root(*builder) && matcher_lines(matcher)
            == builder_lines(*builder),
{
    builder.build().ok()
}

/// Calls `Gitignore::empty`: the matcher without lines, whose root is the
/// empty path.
#[verifier::external_body]
fn gitignore_empty() -> (matcher: ignore::gitignore::Gitignore)
    ensures
        matcher_root(matcher) == Seq::<char>::empty(),
        matcher_lines(matcher) == Seq::<Seq<char>>::empty(),
{
    ignore::gitignore::Gitignore::empty()
}

/// Calls `Gitignore::matched` and then `Match::is_ignore` on what it gave.
/// A matcher without lines matches nothing.
#[verifier::external_body]
fn gitignore_matched(matcher: &ignore::gitignore::Gitignore, path: &str, is_dir: bool) -> (ignored: bool)
    ensures
        ignored == ignores(matcher_root(*matcher), matcher_lines(*matcher), path@, is_dir),
        matcher_lines(*matcher).len() == 0 ==> !ignored,
{
    matcher.matched(path, is_dir).is_ignore()
}

/// The lines among `lines` that a builder takes, in order.
pub open spec fn accepted_lines(lines: Seq<Seq<char>>) -> Seq<Seq<char>>
    decreases lines.len(),
{
    if lines.len() == 0 {
        Seq::empty()
    } else if line_accepted(lines.last()) {
        accepted_lines(lines.drop_last()).push(lines.last())
    } else {
        accepted_lines(lines.drop_last())
    }
}

/// The lines of an ignore file that count: those of the text behind its byte
/// order mark which a builder takes. A line that does not parse is left out
/// and the others still count.
pub open spec fn pattern_lines(text: Seq<char>) -> Seq<Seq<char>> {
    accepted_lines(lines_of(without_bom(text)))
}

/// Decides whether a changed path should be skipped.
pub struct IgnoreMatcher {
    inner: ignore::gitignore::Gitignore,
}

impl IgnoreMatcher {
    /// The directory that paths are matched relative to.
    pub closed spec fn root(&self) -> Seq<char> {
        matcher_root(self.inner)
    }

    /// The pattern lines, oldest first.
    pub closed spec fn lines(&self) -> Seq<Seq<char>> {
        matcher_lines(self.inner)
    }

    /// Whether the matcher says of a file at `path` that it is ignored.
    pub closed spec fn ignores_path(&self, path: Seq<char>) -> bool {
        ignores(matcher_root(self.inner), matcher_lines(self.inner), path, false)
    }

    /// Whether the matcher is the one that is built for `root` from the
    /// given lines: it holds them where their globs compile together, and
    /// is the matcher without lines where they do not.
    pub open spec fn built_from(&self, root: Seq<char>, lines: Seq<Seq<char>>) -> bool {
        if lines_compile(lines) {
            self.lines() == lines && self.root() == root
        } else {
            self.lines().len() == 0
        }
    }

    /// The matcher that matches nothing.
    pub fn empty() -> (matcher: IgnoreMatcher)
        ensures
            matcher.lines().len() == 0,
    {
        IgnoreMatcher { inner: gitignore_empty() }
    }

    /// Builds a matcher for `root` from the lines of an ignore file. Lines
    /// that do not parse are left out. Where the patterns cannot be compiled
    /// together, the matcher is the one that matches nothing.
    pub fn from_lines(root: &str, lines: &Vec<String>) -> (matcher: IgnoreMatcher)
        ensures
            matcher.built_from(root@, accepted_lines(texts(lines@))),
    {
        let mut builder = gitignore_builder(root);
        let mut i: usize = 0;
        while i < lines.len()
            invariant
                0 <= i <= lines.len(),
                builder_root(builder) == root@,
                builder_lines(builder) == accepted_lines(texts(lines@).take(i as int)),
            decreases lines.len() - i,
        {
            proof {
                assert(texts(lines@).take(i + 1).drop_last() =~= texts(lines@).take(i as int));
            }
            let _ = gitignore_add_line(&mut builder, lines[i].as_str());
            i += 1;
        }
        assert(texts(lines@).take(lines@.len() as int) =~= texts(lines@));
        match gitignore_build(&builder) {
            Some(inner) => IgnoreMatcher { inner },
            None => IgnoreMatcher::empty(),
        }
    }

    /// Builds the matcher of a workspace from the text of the ignore file at
    /// its root, if there is one. Without a file nothing is ignored.
    pub fn new(root: &str, gitignore: Option<&str>) -> (matcher: IgnoreMatcher)
        ensures
            gitignore is None ==> matcher.lines().len() == 0,
            gitignore matches Some(text) ==> matcher.built_from(root@, pattern_lines(text@)),
    {
        match gitignore {
            None => IgnoreMatcher::empty(),
            Some(text) => {
                let lines = split_lines_without_bom(text);
                IgnoreMatcher::from_lines(root, &lines)
            },
        }
    }

    /// Whether a file at the path, taken relative to the root, is ignored.
    pub fn matches(&self, path: &str) -> (ignored: bool)
        ensures
            ignored == self.ignores_path(path@),
            self.lines().len() == 0 ==> !ignored,
    {
        gitignore_matched(&self.inner, path, false)
    }
}

} // verus!
