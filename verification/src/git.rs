//! Repository references, the invocations of `git` that materialise one, and
//! the revision that `git` reports.
//!
//! Nothing here runs `git`. An invocation is a value: the arguments and the
//! directory to run in. The caller runs it and hands back what it printed.

use vstd::prelude::*;
use vstd::string::StringExecFns;
use crate::text::{
    chars_of, find_char, first_word_range, index_from, leading_word, string_of, text_of,
    trim_start,
};

verus! {

/// A repository reference: the address, and the branch, tag or commit to
/// check out where one was named.
#[derive(Clone, Debug, PartialEq, Eq)]
pub struct RepoReference {
    pub url: String,
    pub reference: Option<String>,
}

/// Mathematical model of a [`RepoReference`].
pub struct RepoReferenceView {
    pub url: Seq<char>,
    pub reference: Option<Seq<char>>,
}

impl View for RepoReference {
    type V = RepoReferenceView;

    open spec fn view(&self) -> RepoReferenceView {
        RepoReferenceView { url: self.url@, reference: text_of(self.reference) }
    }
}

/// One invocation of `git`: its arguments, and the directory to run it in
/// where that matters.
#[derive(Clone, Debug, PartialEq, Eq)]
pub struct GitCommand {
    pub args: Vec<String>,
    pub dir: Option<String>,
}

/// Mathematical model of a [`GitCommand`].
pub struct GitCommandView {
    pub args: Seq<Seq<char>>,
    pub dir: Option<Seq<char>>,
}

/// The characters of each string.
pub open spec fn texts_of(strings: Seq<String>) -> Seq<Seq<char>> {
    Seq::new(strings.len(), |i: int| strings[i]@)
}

impl View for GitCommand {
    type V = GitCommandView;

    open spec fn view(&self) -> GitCommandView {
        GitCommandView { args: texts_of(self.args@), dir: text_of(self.dir) }
    }
}

/// The models of a list of invocations, in order.
pub open spec fn commands_of(commands: Seq<GitCommand>) -> Seq<GitCommandView> {
    Seq::new(commands.len(), |i: int| commands[i]@)
}

/// How `repo` is read: the address is what stands before the first `#`, the
/// reference all that stands after it. Without a `#`, or with nothing after
/// it, no reference is named and the repository's default is meant.
pub open spec fn reference_of(repo: Seq<char>) -> RepoReferenceView {
    let cut = index_from(repo, '#', 0);
    if cut + 1 < repo.len() {
        RepoReferenceView { url: repo.take(cut), reference: Some(repo.skip(cut + 1)) }
    } else {
        RepoReferenceView { url: repo.take(cut), reference: None }
    }
}

/// `git clone <repo> <local_path>`.
pub open spec fn clone_command(repo: Seq<char>, local_path: Seq<char>) -> GitCommandView {
    GitCommandView { args: seq!["clone"@, repo, local_path], dir: None }
}

/// `git checkout <branch>`, run in the working copy `repo`.
pub open spec fn checkout_command(repo: Seq<char>, branch: Seq<char>) -> GitCommandView {
    GitCommandView { args: seq!["checkout"@, branch], dir: Some(repo) }
}

/// `git rev-parse HEAD`, run in the working copy `repo`.
pub open spec fn head_command(repo: Seq<char>) -> GitCommandView {
    GitCommandView { args: seq!["rev-parse"@, "HEAD"@], dir: Some(repo) }
}

/// The revision in what `git rev-parse` printed: the first run of characters
/// that are not white space. Nothing where the output holds no such run.
pub open spec fn revision_of(output: Seq<char>) -> Option<Seq<char>> {
    let word = leading_word(trim_start(output));
    if word.len() > 0 {
        Some(word)
    } else {
        None
    }
}

/// Reads a repository reference of the form `<url>` or `<url>#<ref>`.
pub fn parse_reference(repo: &str) -> (parsed: RepoReference)
    ensures
        parsed@ == reference_of(repo@),
{
    let chars = chars_of(repo);
    let cut = find_char(&chars, '#', 0);
    let url = string_of(&chars, 0, cut);
    assert(chars@.subrange(0, cut as int) =~= repo@.take(cut as int));
    if cut < chars.len() && chars.len() - cut > 1 {
        let reference = string_of(&chars, cut + 1, chars.len());
        assert(chars@.subrange(cut as int + 1, chars.len() as int) =~= repo@.skip(cut as int + 1));
        RepoReference { url, reference: Some(reference) }
    } else {
        RepoReference { url, reference: None }
    }
}

/// The invocation that clones `repo` into the directory `local_path`.
pub fn clone_repo(repo: String, local_path: String) -> (command: GitCommand)
    ensures
        command@ == clone_command(repo@, local_path@),
{
    let mut args: Vec<String> = Vec::new();
    args.push(String::from_str("clone"));
    args.push(repo);
    args.push(local_path);
    assert(texts_of(args@) =~= seq!["clone"@, repo@, local_path@]);
    GitCommand { args, dir: None }
}

/// The invocation that checks `branch` out in the working copy `repo`.
pub fn checkout(repo: String, branch: String) -> (command: GitCommand)
    ensures
        command@ == checkout_command(repo@, branch@),
{
    let mut args: Vec<String> = Vec::new();
    args.push(String::from_str("checkout"));
    args.push(branch);
    assert(texts_of(args@) =~= seq!["checkout"@, branch@]);
    GitCommand { args, dir: Some(repo) }
}

/// The invocation that asks the working copy `repo` for the revision it
/// stands at.
pub fn rev_parse_head(repo: String) -> (command: GitCommand)
    ensures
        command@ == head_command(repo@),
{
    let mut args: Vec<String> = Vec::new();
    args.push(String::from_str("rev-parse"));
    args.push(String::from_str("HEAD"));
    assert(texts_of(args@) =~= seq!["rev-parse"@, "HEAD"@]);
    GitCommand { args, dir: Some(repo) }
}

/// The revision that `git rev-parse HEAD` reported, read from what it
/// printed.
pub fn latest_hash(output: &str) -> (hash: Option<String>)
    ensures
        text_of(hash) == revision_of(output@),
{
    let chars = chars_of(output);
    let (start, end) = first_word_range(&chars);
    if start < end {
        Some(string_of(&chars, start, end))
    } else {
        None
    }
}

} // verus!
