//! The manifest: what a project declares about its vendored dependencies.

use vstd::prelude::*;
use crate::comment::{
    extract_first_block_comment, first_block_comment, lemma_no_opening_no_comment,
};
use crate::text::{pair_at, text_of};

verus! {

/// One vendored inclusion: where it came from, at which revision, and where
/// it was put.
#[derive(Clone, Debug, PartialEq, Eq)]
pub struct Dependency {
    pub repo: String,
    pub hash: String,
    pub remote_path: String,
    pub local_path: String,
}

/// Optional shell commands to run around installation and removal. They are
/// carried through, never run by this library.
#[derive(Clone, Debug, PartialEq, Eq)]
pub struct Hooks {
    pub preinstall: Option<String>,
    pub postinstall: Option<String>,
    pub preuninstall: Option<String>,
    pub postuninstall: Option<String>,
}

/// The declarative state of a project.
#[derive(Clone, Debug, PartialEq, Eq)]
pub struct Config {
    pub name: Option<String>,
    pub description: Option<String>,
    pub hooks: Option<Hooks>,
    pub dependencies: Option<Vec<Dependency>>,
}

/// What the file system says of a path.
#[derive(Clone, Copy, Debug, PartialEq, Eq)]
pub enum PathKind {
    /// Nothing can be learnt of the path: it is missing, or may not be read.
    Unreadable,
    /// The path names a directory.
    Directory,
    /// The path names something else, taken to be a file.
    File,
}

/// The name of the manifest file at the root of a project.
pub const MANIFEST_FILE_NAME: &'static str = "blend.yml";

/// Mathematical model of a [`Dependency`].
pub struct DependencyView {
    pub repo: Seq<char>,
    pub hash: Seq<char>,
    pub remote_path: Seq<char>,
    pub local_path: Seq<char>,
}

/// Mathematical model of [`Hooks`].
pub struct HooksView {
    pub preinstall: Option<Seq<char>>,
    pub postinstall: Option<Seq<char>>,
    pub preuninstall: Option<Seq<char>>,
    pub postuninstall: Option<Seq<char>>,
}

/// Mathematical model of a [`Config`].
pub struct ConfigView {
    pub name: Option<Seq<char>>,
    pub description: Option<Seq<char>>,
    pub hooks: Option<HooksView>,
    pub dependencies: Option<Seq<DependencyView>>,
}

/// The models of a list of dependencies, in order.
pub open spec fn records_of(deps: Seq<Dependency>) -> Seq<DependencyView> {
    Seq::new(deps.len(), |i: int| deps[i]@)
}

impl View for Dependency {
    type V = DependencyView;

    open spec fn view(&self) -> DependencyView {
        DependencyView {
            repo: self.repo@,
            hash: self.hash@,
            remote_path: self.remote_path@,
            local_path: self.local_path@,
        }
    }
}

impl View for Hooks {
    type V = HooksView;

    open spec fn view(&self) -> HooksView {
        HooksView {
            preinstall: text_of(self.preinstall),
            postinstall: text_of(self.postinstall),
            preuninstall: text_of(self.preuninstall),
            postuninstall: text_of(self.postuninstall),
        }
    }
}

impl View for Config {
    type V = ConfigView;

    open spec fn view(&self) -> ConfigView {
        ConfigView {
            name: text_of(self.name),
            description: text_of(self.description),
            hooks: match self.hooks {
                Some(h) => Some(h@),
                None => None,
            },
            dependencies: match self.dependencies {
                Some(deps) => Some(records_of(deps@)),
                None => None,
            },
        }
    }
}

/// Whether some record in `deps` is declared at `local_path`.
pub open spec fn declares(deps: Seq<DependencyView>, local_path: Seq<char>) -> bool {
    exists|i: int| 0 <= i < deps.len() && (#[trigger] deps[i]).local_path == local_path
}

/// Whether no two records in `deps` share a local path.
pub open spec fn distinct_local_paths(deps: Seq<DependencyView>) -> bool {
    forall|i: int, j: int|
        0 <= i < j < deps.len() ==> (#[trigger] deps[i]).local_path != (#[trigger] deps[j]).local_path
}

impl ConfigView {
    /// The declared records; none where the list is unset.
    pub open spec fn records(self) -> Seq<DependencyView> {
        match self.dependencies {
            Some(deps) => deps,
            None => Seq::empty(),
        }
    }

    /// The invariant of a manifest: at most one record per local path.
    pub open spec fn consistent(self) -> bool {
        distinct_local_paths(self.records())
    }

    /// Whether merging `record` appends it: exactly when its local path is
    /// not declared yet.
    pub open spec fn accepts(self, record: DependencyView) -> bool {
        !declares(self.records(), record.local_path)
    }

    /// The manifest after merging `record`: unchanged where the local path is
    /// already declared, else with `record` appended after the prior ones.
    pub open spec fn merged(self, record: DependencyView) -> ConfigView {
        if self.accepts(record) {
            ConfigView { dependencies: Some(self.records().push(record)), ..self }
        } else {
            self
        }
    }
}

impl Config {
    /// A manifest without metadata or hooks and with an empty list of
    /// dependencies: what a project has before anything was declared.
    pub fn empty() -> (config: Config)
        ensures
            config@ == (ConfigView {
                name: None,
                description: None,
                hooks: None,
                dependencies: Some(Seq::empty()),
            }),
            config@.consistent(),
    {
        let config = Config {
            name: None,
            description: None,
            hooks: None,
            dependencies: Some(Vec::new()),
        };
        assert(records_of(Seq::<Dependency>::empty()) =~= Seq::<DependencyView>::empty());
        config
    }

    /// Whether a record is declared at `local_path`.
    pub fn has_local_path(&self, local_path: &String) -> (found: bool)
        ensures
            found == declares(self@.records(), local_path@),
    {
        match &self.dependencies {
            None => false,
            Some(deps) => {
                let mut i: usize = 0;
                while i < deps.len()
                    invariant
                        i <= deps.len(),
                        self.dependencies == Some(*deps),
                        forall|k: int| 0 <= k < i ==> deps[k].local_path@ != local_path@,
                    decreases deps.len() - i,
                {
                    if deps[i].local_path == *local_path {
                        assert(self@.records()[i as int].local_path == local_path@);
                        return true;
                    }
                    i += 1;
                }
                false
            },
        }
    }

    /// Merges `dependency` into the manifest unless its local path is already
    /// declared. Returns whether it was added; a manifest whose list was
    /// unset gets a list that holds the new record alone.
    pub fn add_dependency_if_not_exists(&mut self, dependency: Dependency) -> (added: bool)
        ensures
            final(self)@ == old(self)@.merged(dependency@),
            added == old(self)@.accepts(dependency@),
            old(self)@.consistent() ==> final(self)@.consistent(),
    {
        if self.has_local_path(&dependency.local_path) {
            return false;
        }
        let ghost before = self@;
        let mut deps = match self.dependencies.take() {
            Some(deps) => deps,
            None => Vec::new(),
        };
        let ghost prior = deps@;
        deps.push(dependency);
        assert(records_of(deps@) =~= records_of(prior).push(dependency@));
        assert(records_of(prior) =~= before.records());
        self.dependencies = Some(deps);
        true
    }
}

/// The text at a location that is to be read as a manifest, where `content`
/// is what could be read there: for a directory, of the manifest file
/// directly inside it; for a file, of the file itself. A directory gives the
/// whole content of its manifest file, a file what its first block comment
/// holds, and a path of which nothing is known gives nothing.
pub open spec fn candidate_text(kind: PathKind, content: Option<Seq<char>>) -> Option<Seq<char>> {
    match kind {
        PathKind::Unreadable => None,
        PathKind::Directory => content,
        PathKind::File => match content {
            Some(text) => first_block_comment(text),
            None => None,
        },
    }
}

/// The text at a location that is to be read as a manifest; see
/// [`candidate_text`].
pub fn manifest_text(kind: PathKind, content: Option<String>) -> (text: Option<String>)
    ensures
        text_of(text) == candidate_text(kind, text_of(content)),
{
    match kind {
        PathKind::Unreadable => None,
        PathKind::Directory => content,
        PathKind::File => match content {
            Some(file) => extract_first_block_comment(file.as_str()),
            None => None,
        },
    }
}

/// Loads the manifest of a location, given what the caller found there and
/// the parser of manifest text. The parser is handed the text of
/// [`candidate_text`], and what it answers is the result: a manifest, or
/// nothing where the text is no manifest. Where there is no such text nothing
/// is found. A missing manifest is no error.
pub fn get_config<P: Fn(String) -> Option<Config>>(
    kind: PathKind,
    content: Option<String>,
    parse: P,
) -> (found: Option<Config>)
    requires
        forall|text: String|
            candidate_text(kind, text_of(content)) == Some(text@) ==> call_requires(parse, (text,)),
    ensures
        match candidate_text(kind, text_of(content)) {
            Some(candidate) => exists|text: String|
                text@ == candidate && call_ensures(parse, (text,), found),
            None => found is None,
        },
{
    match manifest_text(kind, content) {
        Some(text) => parse(text),
        None => None,
    }
}

/// Merging keeps what was declared: the prior records stay, in their order,
/// at the front of the list, and afterwards the record's local path is
/// declared, whether or not the record itself was added.
pub proof fn lemma_merge_keeps_prior(m: ConfigView, r: DependencyView)
    ensures
        m.records().is_prefix_of(m.merged(r).records()),
        declares(m.merged(r).records(), r.local_path),
        m.merged(r).records().len() == m.records().len() + (if m.accepts(r) { 1int } else { 0int }),
{
    if m.accepts(r) {
        let after = m.records().push(r);
        assert(after[m.records().len() as int].local_path == r.local_path);
        assert(m.records() =~= after.subrange(0, m.records().len() as int));
    } else {
        assert(m.records() =~= m.records().subrange(0, m.records().len() as int));
    }
}

/// Merging keeps the invariant of a manifest: where no two records shared a
/// local path before, none do after.
pub proof fn lemma_merge_keeps_consistent(m: ConfigView, r: DependencyView)
    requires
        m.consistent(),
    ensures
        m.merged(r).consistent(),
{
}

/// Two records with distinct local paths, merged one after the other into a
/// manifest that declares neither path, are both added, and the list ends
/// with the first followed by the second.
pub proof fn lemma_merge_two_distinct(m: ConfigView, r: DependencyView, s: DependencyView)
    requires
        r.local_path != s.local_path,
        m.accepts(r),
        m.accepts(s),
    ensures
        m.merged(r).accepts(s),
        m.merged(r).merged(s).records() == m.records().push(r).push(s),
        ({
            let after = m.merged(r).merged(s).records();
            let n = m.records().len() as int;
            after.len() == n + 2 && after[n] == r && after[n + 1] == s
        }),
{
    let first = m.merged(r).records();
    assert(first == m.records().push(r));
    assert forall|i: int| 0 <= i < first.len() implies (#[trigger] first[i]).local_path
        != s.local_path by {
        if i < m.records().len() {
            assert(m.records()[i].local_path != s.local_path);
        }
    }
}

/// A second record at a local path that was just merged is refused, whatever
/// its other fields hold: the manifest stays as the first merge left it.
pub proof fn lemma_merge_same_local_path(m: ConfigView, r: DependencyView, again: DependencyView)
    requires
        again.local_path == r.local_path,
    ensures
        !m.merged(r).accepts(again),
        m.merged(r).merged(again) == m.merged(r),
        m.merged(r).merged(again).records().len() == m.merged(r).records().len(),
{
    lemma_merge_keeps_prior(m, r);
}

/// Nothing is found where nothing can be read: at a path of which nothing is
/// known, in a directory without a manifest file, and in a file that holds
/// no `/*`.
pub proof fn lemma_absent_manifest(kind: PathKind, content: Option<Seq<char>>)
    requires
        ({
            ||| kind == PathKind::Unreadable
            ||| content is None
            ||| kind == PathKind::File && forall|j: int| !pair_at(content->0, j, '/', '*')
        }),
    ensures
        candidate_text(kind, content) is None,
{
    if kind == PathKind::File && content is Some {
        lemma_no_opening_no_comment(content->0);
    }
}

} // verus!
