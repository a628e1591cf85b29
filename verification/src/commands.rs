//! Vendoring one subtree: which step comes next.
//!
//! Adding a dependency means creating a working copy, fetching the
//! repository into it, reading the revision it stands at, merging a record
//! into the project's manifest, writing the manifest, copying the subtree
//! to its place in the project and removing the working copy. Each of these touches the world outside,
//! so none is done here. [`add_repo`] and [`Workflow::step`] name the next
//! [`Action`]; the caller performs it and reports an [`Event`].

use vstd::prelude::*;
use crate::config::{
    declares, lemma_merge_keeps_consistent, lemma_merge_keeps_prior, Config, ConfigView,
    Dependency, DependencyView, PathKind,
};
use crate::git::{
    checkout, checkout_command, clone_command, commands_of, head_command, latest_hash,
    parse_reference, reference_of, rev_parse_head, revision_of, GitCommand, GitCommandView,
};
use crate::text::text_of;

verus! {

/// Why vendoring was given up.
#[derive(Clone, Copy, Debug, PartialEq, Eq)]
pub enum Failure {
    /// No working copy could be created.
    WorkingCopy,
    /// The repository could not be cloned, or the reference not checked out.
    Fetch,
    /// The working copy did not report the revision it stands at.
    Revision,
    /// The manifest could not be turned into text.
    Serialize,
    /// The manifest could not be written.
    Save,
    /// The subtree could not be copied into the project.
    CopyPayload,
    /// The working copy could not be removed.
    Dispose,
}

/// Which answer the workflow is waiting for.
#[derive(Clone, Copy, Debug, PartialEq, Eq)]
pub enum Phase {
    Creating,
    Fetching,
    Resolving,
    ReadingPayload,
    Loading,
    Serializing,
    Saving,
    Probing,
    Copying,
    Disposing,
    Finished,
}

/// How to copy a directory tree.
#[derive(Clone, Copy, Debug, PartialEq, Eq)]
pub struct CopyOptions {
    pub overwrite: bool,
    pub skip_exist: bool,
    pub buffer_size: usize,
    pub copy_inside: bool,
    pub content_only: bool,
    pub depth: u64,
}

/// How the subtree is copied.
#[derive(Clone, Copy, Debug, PartialEq, Eq)]
pub enum CopyStep {
    /// The source is a directory: copy what it holds to the destination
    /// path, with these options.
    Tree { options: CopyOptions },
    /// The source is a single file: copy that file to the destination path.
    File,
    /// The source cannot be read: there is nothing to copy, the step fails.
    Missing,
}

/// What the caller is to do next.
#[derive(Debug, PartialEq, Eq)]
pub enum Action {
    /// Create a fresh, empty directory for the working copy.
    CreateWorkingCopy,
    /// Run this invocation of `git`.
    Fetch { command: GitCommand },
    /// Run this invocation and report what it printed.
    ResolveHead { command: GitCommand },
    /// Load the manifest that `remote_path` inside the working copy `dir`
    /// carries itself, for the user to see. What is found decides nothing.
    ReadPayloadManifest { dir: String, remote_path: String },
    /// Load the manifest of the project.
    LoadManifest,
    /// Turn this manifest into text.
    SerializeManifest { manifest: Config },
    /// Write this text as the project's manifest, replacing what was there.
    SaveManifest { text: String },
    /// Say what `remote_path` inside the working copy `dir` is.
    ProbePayload { dir: String, remote_path: String },
    /// Copy `remote_path` inside the working copy `dir` to `local_path`
    /// inside the project, or to the project's root where none is given, in
    /// the way that `how` says.
    CopyPayload { dir: String, remote_path: String, local_path: Option<String>, how: CopyStep },
    /// Remove the working copy and all it holds.
    Dispose { dir: String },
    /// Nothing is left to do: whether the manifest gained a record, or why
    /// vendoring was given up.
    Finish { outcome: Result<bool, Failure> },
}

/// What happened when the caller performed the last action.
#[derive(Debug, PartialEq, Eq)]
pub enum Event {
    /// The action succeeded and has nothing to report.
    Done,
    /// The action failed.
    Failed,
    /// The working copy was created at `dir`.
    Created { dir: String },
    /// The action produced this text.
    Text { text: String },
    /// The manifest that was asked for, where one was found.
    Manifest { found: Option<Config> },
    /// What the path that was asked about is.
    Kind { kind: PathKind },
}

/// Where the vendoring of one subtree stands.
#[derive(Debug, PartialEq, Eq)]
pub struct Workflow {
    pub phase: Phase,
    /// The repository reference as it was given.
    pub repo: String,
    pub remote_path: String,
    pub local_path: Option<String>,
    /// The working copy; empty until it was created.
    pub dir: String,
    /// How many invocations of the fetch have succeeded.
    pub fetched: usize,
    /// The revision of the working copy; empty until it was read.
    pub hash: String,
    /// Whether the merge added a record to the manifest.
    pub added: bool,
    /// The first failure, where there was one.
    pub failure: Option<Failure>,
}

/// Mathematical model of an [`Action`].
pub enum ActionView {
    CreateWorkingCopy,
    Fetch { command: GitCommandView },
    ResolveHead { command: GitCommandView },
    ReadPayloadManifest { dir: Seq<char>, remote_path: Seq<char> },
    LoadManifest,
    SerializeManifest { manifest: ConfigView },
    SaveManifest { text: Seq<char> },
    ProbePayload { dir: Seq<char>, remote_path: Seq<char> },
    CopyPayload {
        dir: Seq<char>,
        remote_path: Seq<char>,
        local_path: Option<Seq<char>>,
        how: CopyStep,
    },
    Dispose { dir: Seq<char> },
    Finish { outcome: Result<bool, Failure> },
}

/// Mathematical model of an [`Event`].
pub enum EventView {
    Done,
    Failed,
    Created { dir: Seq<char> },
    Text { text: Seq<char> },
    Manifest { found: Option<ConfigView> },
    Kind { kind: PathKind },
}

/// Mathematical model of a [`Workflow`].
pub struct WorkflowView {
    pub phase: Phase,
    pub repo: Seq<char>,
    pub remote_path: Seq<char>,
    pub local_path: Option<Seq<char>>,
    pub dir: Seq<char>,
    pub fetched: usize,
    pub hash: Seq<char>,
    pub added: bool,
    pub failure: Option<Failure>,
}

impl View for Action {
    type V = ActionView;

    open spec fn view(&self) -> ActionView {
        match *self {
            Action::CreateWorkingCopy => ActionView::CreateWorkingCopy,
            Action::Fetch { command } => ActionView::Fetch { command: command@ },
            Action::ResolveHead { command } => ActionView::ResolveHead { command: command@ },
            Action::ReadPayloadManifest { dir, remote_path } => ActionView::ReadPayloadManifest {
                dir: dir@,
                remote_path: remote_path@,
            },
            Action::LoadManifest => ActionView::LoadManifest,
            Action::SerializeManifest { manifest } => ActionView::SerializeManifest {
                manifest: manifest@,
            },
            Action::SaveManifest { text } => ActionView::SaveManifest { text: text@ },
            Action::ProbePayload { dir, remote_path } => ActionView::ProbePayload {
                dir: dir@,
                remote_path: remote_path@,
            },
            Action::CopyPayload { dir, remote_path, local_path, how } => ActionView::CopyPayload {
                dir: dir@,
                remote_path: remote_path@,
                local_path: text_of(local_path),
                how,
            },
            Action::Dispose { dir } => ActionView::Dispose { dir: dir@ },
            Action::Finish { outcome } => ActionView::Finish { outcome },
        }
    }
}

impl View for Event {
    type V = EventView;

    open spec fn view(&self) -> EventView {
        match *self {
            Event::Done => EventView::Done,
            Event::Failed => EventView::Failed,
            Event::Created { dir } => EventView::Created { dir: dir@ },
            Event::Text { text } => EventView::Text { text: text@ },
            Event::Manifest { found } => EventView::Manifest {
                found: match found {
                    Some(manifest) => Some(manifest@),
                    None => None,
                },
            },
            Event::Kind { kind } => EventView::Kind { kind },
        }
    }
}

impl View for Workflow {
    type V = WorkflowView;

    open spec fn view(&self) -> WorkflowView {
        WorkflowView {
            phase: self.phase,
            repo: self.repo@,
            remote_path: self.remote_path@,
            local_path: text_of(self.local_path),
            dir: self.dir@,
            fetched: self.fetched,
            hash: self.hash@,
            added: self.added,
            failure: self.failure,
        }
    }
}

/// The options with which a directory tree is vendored. What the source
/// holds goes directly under the destination path, with no directory named
/// after the source in between (`content_only`); a destination that is
/// missing is created with its parents (`copy_inside`); files that are
/// already there are overwritten (`overwrite`), none is skipped; and the
/// tree is copied to its full depth (`depth` 0).
pub open spec fn tree_options() -> CopyOptions {
    CopyOptions {
        overwrite: true,
        skip_exist: false,
        buffer_size: 64000,
        copy_inside: true,
        content_only: true,
        depth: 0,
    }
}

/// How a source of this kind is copied into the project. A directory is
/// copied as a tree, a file as that one file, and a source that cannot be
/// read is not copied.
pub open spec fn copy_plan(source: PathKind) -> CopyStep {
    match source {
        PathKind::Directory => CopyStep::Tree { options: tree_options() },
        PathKind::File => CopyStep::File,
        PathKind::Unreadable => CopyStep::Missing,
    }
}

/// The invocations that materialise `repo` in the directory `path`: a clone
/// of the address, then a checkout of the reference where one is named.
pub open spec fn fetch_plan(repo: Seq<char>, path: Seq<char>) -> Seq<GitCommandView> {
    let parsed = reference_of(repo);
    match parsed.reference {
        Some(branch) => seq![clone_command(parsed.url, path), checkout_command(path, branch)],
        None => seq![clone_command(parsed.url, path)],
    }
}

/// The manifest of a project that has none yet.
pub open spec fn empty_manifest() -> ConfigView {
    ConfigView { name: None, description: None, hooks: None, dependencies: Some(Seq::empty()) }
}

/// The failure that is reported when `failure` comes after `earlier`: the
/// first one.
pub open spec fn first_failure(earlier: Option<Failure>, failure: Failure) -> Failure {
    match earlier {
        Some(first) => first,
        None => failure,
    }
}

/// Whether a working copy exists in this phase and is still to be removed.
pub open spec fn holds_working_copy(phase: Phase) -> bool {
    phase != Phase::Creating && phase != Phase::Disposing && phase != Phase::Finished
}

impl WorkflowView {
    /// The record that this workflow declares: the address without its
    /// reference, the revision that was read, and the two paths. Without a
    /// local path the record is declared at the empty path, the project's
    /// root.
    pub open spec fn record(self) -> DependencyView {
        DependencyView {
            repo: reference_of(self.repo).url,
            hash: self.hash,
            remote_path: self.remote_path,
            local_path: match self.local_path {
                Some(path) => path,
                None => Seq::empty(),
            },
        }
    }

    /// What the workflow reports at its end.
    pub open spec fn outcome(self) -> Result<bool, Failure> {
        match self.failure {
            Some(failure) => Err(failure),
            None => Ok(self.added),
        }
    }

    /// The workflow ends, after `failure` where one is given.
    pub open spec fn finished(self, failure: Option<Failure>) -> (WorkflowView, ActionView) {
        let last = WorkflowView { phase: Phase::Finished, failure, ..self };
        (last, ActionView::Finish { outcome: last.outcome() })
    }

    /// A step failed while the working copy exists: it is removed next.
    pub open spec fn failing(self, failure: Failure) -> (WorkflowView, ActionView) {
        (
            WorkflowView {
                phase: Phase::Disposing,
                failure: Some(first_failure(self.failure, failure)),
                ..self
            },
            ActionView::Dispose { dir: self.dir },
        )
    }

    /// The state after `event` and the action to perform next.
    ///
    /// The invocations of the fetch go out one at a time, in the order of
    /// [`fetch_plan`], each after the one before it succeeded. An event that
    /// does not answer the pending action counts as its failure, with two
    /// exceptions: a manifest of the project that was not found, in whatever
    /// way, is an empty manifest and no failure; and what the subtree's own
    /// manifest holds, or whether it has one, decides nothing.
    pub open spec fn transition(self, event: EventView) -> (WorkflowView, ActionView) {
        match self.phase {
            Phase::Creating => match event {
                EventView::Created { dir } => (
                    WorkflowView { phase: Phase::Fetching, dir, fetched: 0, ..self },
                    ActionView::Fetch { command: fetch_plan(self.repo, dir)[0] },
                ),
                _ => self.finished(Some(first_failure(self.failure, Failure::WorkingCopy))),
            },
            Phase::Fetching => match event {
                EventView::Done => {
                    let plan = fetch_plan(self.repo, self.dir);
                    if self.fetched + 1 < plan.len() {
                        (
                            WorkflowView { fetched: (self.fetched + 1) as usize, ..self },
                            ActionView::Fetch { command: plan[self.fetched + 1] },
                        )
                    } else {
                        (
                            WorkflowView { phase: Phase::Resolving, ..self },
                            ActionView::ResolveHead { command: head_command(self.dir) },
                        )
                    }
                },
                _ => self.failing(Failure::Fetch),
            },
            Phase::Resolving => match event {
                EventView::Text { text } => match revision_of(text) {
                    Some(hash) => (
                        WorkflowView { phase: Phase::ReadingPayload, hash, ..self },
                        ActionView::ReadPayloadManifest {
                            dir: self.dir,
                            remote_path: self.remote_path,
                        },
                    ),
                    None => self.failing(Failure::Revision),
                },
                _ => self.failing(Failure::Revision),
            },
            Phase::ReadingPayload => (
                WorkflowView { phase: Phase::Loading, ..self },
                ActionView::LoadManifest,
            ),
            Phase::Loading => {
                let base = match event {
                    EventView::Manifest { found: Some(manifest) } => manifest,
                    _ => empty_manifest(),
                };
                (
                    WorkflowView {
                        phase: Phase::Serializing,
                        added: base.accepts(self.record()),
                        ..self
                    },
                    ActionView::SerializeManifest { manifest: base.merged(self.record()) },
                )
            },
            Phase::Serializing => match event {
                EventView::Text { text } => (
                    WorkflowView { phase: Phase::Saving, ..self },
                    ActionView::SaveManifest { text },
                ),
                _ => self.failing(Failure::Serialize),
            },
            Phase::Saving => match event {
                EventView::Done => (
                    WorkflowView { phase: Phase::Probing, ..self },
                    ActionView::ProbePayload { dir: self.dir, remote_path: self.remote_path },
                ),
                _ => self.failing(Failure::Save),
            },
            Phase::Probing => match event {
                EventView::Kind { kind } => match copy_plan(kind) {
                    CopyStep::Missing => self.failing(Failure::CopyPayload),
                    how => (
                        WorkflowView { phase: Phase::Copying, ..self },
                        ActionView::CopyPayload {
                            dir: self.dir,
                            remote_path: self.remote_path,
                            local_path: self.local_path,
                            how,
                        },
                    ),
                },
                _ => self.failing(Failure::CopyPayload),
            },
            Phase::Copying => match event {
                EventView::Done => (
                    WorkflowView { phase: Phase::Disposing, ..self },
                    ActionView::Dispose { dir: self.dir },
                ),
                _ => self.failing(Failure::CopyPayload),
            },
            Phase::Disposing => match event {
                EventView::Done => self.finished(self.failure),
                _ => self.finished(Some(first_failure(self.failure, Failure::Dispose))),
            },
            Phase::Finished => self.finished(self.failure),
        }
    }
}

/// How to copy a source of this kind into the project; see [`copy_plan`]
/// and [`tree_options`].
pub fn copy_file_or_directory(source: PathKind) -> (step: CopyStep)
    ensures
        step == copy_plan(source),
{
    match source {
        PathKind::Directory => CopyStep::Tree {
            options: CopyOptions {
                overwrite: true,
                skip_exist: false,
                buffer_size: 64000,
                copy_inside: true,
                content_only: true,
                depth: 0,
            },
        },
        PathKind::File => CopyStep::File,
        PathKind::Unreadable => CopyStep::Missing,
    }
}

/// The invocations of `git` that materialise the repository reference `repo`
/// in the directory `path`.
pub fn clone_repo(repo: String, path: String) -> (commands: Vec<GitCommand>)
    ensures
        commands_of(commands@) == fetch_plan(repo@, path@),
        1 <= commands.len() <= 2,
{
    let parsed = parse_reference(repo.as_str());
    let mut commands: Vec<GitCommand> = Vec::new();
    match parsed.reference {
        Some(branch) => {
            commands.push(crate::git::clone_repo(parsed.url, path.clone()));
            commands.push(checkout(path, branch));
            assert(commands_of(commands@) =~= fetch_plan(repo@, path@));
        },
        None => {
            commands.push(crate::git::clone_repo(parsed.url, path));
            assert(commands_of(commands@) =~= fetch_plan(repo@, path@));
        },
    }
    commands
}

/// Begins to vendor `remote_path` of the repository `repo` into `local_path`
/// of the project. The first thing to do is to create the working copy.
pub fn add_repo(repo: String, remote_path: String, local_path: Option<String>) -> (start: (
    Workflow,
    Action,
))
    ensures
        start.0@ == (WorkflowView {
            phase: Phase::Creating,
            repo: repo@,
            remote_path: remote_path@,
            local_path: text_of(local_path),
            dir: Seq::empty(),
            fetched: 0,
            hash: Seq::empty(),
            added: false,
            failure: None,
        }),
        start.1@ == ActionView::CreateWorkingCopy,
{
    (
        Workflow {
            phase: Phase::Creating,
            repo,
            remote_path,
            local_path,
            dir: String::new(),
            fetched: 0,
            hash: String::new(),
            added: false,
            failure: None,
        },
        Action::CreateWorkingCopy,
    )
}

/// A copy of an optional string.
fn clone_text(text: &Option<String>) -> (copy: Option<String>)
    ensures
        text_of(copy) == text_of(*text),
{
    match text {
        Some(t) => Some(t.clone()),
        None => None,
    }
}

impl Workflow {
    /// The record that this workflow declares.
    pub fn record(&self) -> (record: Dependency)
        ensures
            record@ == self@.record(),
    {
        let parsed = parse_reference(self.repo.as_str());
        let local_path = match &self.local_path {
            Some(path) => path.clone(),
            None => String::new(),
        };
        Dependency {
            repo: parsed.url,
            hash: self.hash.clone(),
            remote_path: self.remote_path.clone(),
            local_path,
        }
    }

    fn finished(self, failure: Option<Failure>) -> (next: (Workflow, Action))
        ensures
            (next.0@, next.1@) == self@.finished(failure),
    {
        let outcome = match failure {
            Some(f) => Err(f),
            None => Ok(self.added),
        };
        (
            Workflow {
                phase: Phase::Finished,
                repo: self.repo,
                remote_path: self.remote_path,
                local_path: self.local_path,
                dir: self.dir,
                fetched: self.fetched,
                hash: self.hash,
                added: self.added,
                failure,
            },
            Action::Finish { outcome },
        )
    }

    fn failing(self, failure: Failure) -> (next: (Workflow, Action))
        ensures
            (next.0@, next.1@) == self@.failing(failure),
    {
        let first = match self.failure {
            Some(f) => f,
            None => failure,
        };
        let dir = self.dir.clone();
        (
            Workflow {
                phase: Phase::Disposing,
                repo: self.repo,
                remote_path: self.remote_path,
                local_path: self.local_path,
                dir: self.dir,
                fetched: self.fetched,
                hash: self.hash,
                added: self.added,
                failure: Some(first),
            },
            Action::Dispose { dir },
        )
    }

    fn advance(self, phase: Phase) -> (next: Workflow)
        ensures
            next@ == (WorkflowView { phase, ..self@ }),
    {
        Workflow {
            phase,
            repo: self.repo,
            remote_path: self.remote_path,
            local_path: self.local_path,
            dir: self.dir,
            fetched: self.fetched,
            hash: self.hash,
            added: self.added,
            failure: self.failure,
        }
    }

    /// Takes in what happened and names what is to be done next.
    pub fn step(self, event: Event) -> (next: (Workflow, Action))
        ensures
            (next.0@, next.1@) == self@.transition(event@),
    {
        match self.phase {
            Phase::Creating => match event {
                Event::Created { dir } => {
                    let mut commands = clone_repo(self.repo.clone(), dir.clone());
                    let command = commands.remove(0);
                    let mut next = self.advance(Phase::Fetching);
                    next.dir = dir;
                    next.fetched = 0;
                    (next, Action::Fetch { command })
                },
                _ => {
                    let first = match self.failure {
                        Some(f) => f,
                        None => Failure::WorkingCopy,
                    };
                    self.finished(Some(first))
                },
            },
            Phase::Fetching => match event {
                Event::Done => {
                    let mut commands = clone_repo(self.repo.clone(), self.dir.clone());
                    if self.fetched < commands.len() && commands.len() - self.fetched > 1 {
                        let command = commands.remove(self.fetched + 1);
                        let mut next = self.advance(Phase::Fetching);
                        next.fetched = next.fetched + 1;
                        (next, Action::Fetch { command })
                    } else {
                        let command = rev_parse_head(self.dir.clone());
                        (self.advance(Phase::Resolving), Action::ResolveHead { command })
                    }
                },
                _ => self.failing(Failure::Fetch),
            },
            Phase::Resolving => match event {
                Event::Text { text } => match latest_hash(text.as_str()) {
                    Some(hash) => {
                        let action = Action::ReadPayloadManifest {
                            dir: self.dir.clone(),
                            remote_path: self.remote_path.clone(),
                        };
                        let mut next = self.advance(Phase::ReadingPayload);
                        next.hash = hash;
                        (next, action)
                    },
                    None => self.failing(Failure::Revision),
                },
                _ => self.failing(Failure::Revision),
            },
            Phase::ReadingPayload => (self.advance(Phase::Loading), Action::LoadManifest),
            Phase::Loading => {
                let mut manifest = match event {
                    Event::Manifest { found: Some(manifest) } => manifest,
                    _ => Config::empty(),
                };
                let record = self.record();
                let added = manifest.add_dependency_if_not_exists(record);
                let mut next = self.advance(Phase::Serializing);
                next.added = added;
                (next, Action::SerializeManifest { manifest })
            },
            Phase::Serializing => match event {
                Event::Text { text } => (
                    self.advance(Phase::Saving),
                    Action::SaveManifest { text },
                ),
                _ => self.failing(Failure::Serialize),
            },
            Phase::Saving => match event {
                Event::Done => {
                    let action = Action::ProbePayload {
                        dir: self.dir.clone(),
                        remote_path: self.remote_path.clone(),
                    };
                    (self.advance(Phase::Probing), action)
                },
                _ => self.failing(Failure::Save),
            },
            Phase::Probing => match event {
                Event::Kind { kind } => match copy_file_or_directory(kind) {
                    CopyStep::Missing => self.failing(Failure::CopyPayload),
                    how => {
                        let action = Action::CopyPayload {
                            dir: self.dir.clone(),
                            remote_path: self.remote_path.clone(),
                            local_path: clone_text(&self.local_path),
                            how,
                        };
                        (self.advance(Phase::Copying), action)
                    },
                },
                _ => self.failing(Failure::CopyPayload),
            },
            Phase::Copying => match event {
                Event::Done => {
                    let dir = self.dir.clone();
                    (self.advance(Phase::Disposing), Action::Dispose { dir })
                },
                _ => self.failing(Failure::CopyPayload),
            },
            Phase::Disposing => match event {
                Event::Done => {
                    let failure = self.failure;
                    self.finished(failure)
                },
                _ => {
                    let first = match self.failure {
                        Some(f) => f,
                        None => Failure::Dispose,
                    };
                    self.finished(Some(first))
                },
            },
            Phase::Finished => {
                let failure = self.failure;
                self.finished(failure)
            },
        }
    }
}

/// A bound on the events that a workflow still takes before it is finished.
pub open spec fn steps_left(state: WorkflowView) -> int {
    match state.phase {
        Phase::Creating => 12,
        Phase::Fetching => if state.fetched + 1 < fetch_plan(state.repo, state.dir).len() {
            11
        } else {
            10
        },
        Phase::Resolving => 9,
        Phase::ReadingPayload => 8,
        Phase::Loading => 7,
        Phase::Serializing => 6,
        Phase::Saving => 5,
        Phase::Probing => 4,
        Phase::Copying => 3,
        Phase::Disposing => 1,
        Phase::Finished => 0,
    }
}

/// Every event moves the workflow forward until it is finished, so it ends
/// after at most twelve events; once finished it stays so and keeps
/// reporting its outcome.
pub proof fn lemma_workflow_ends(state: WorkflowView, event: EventView)
    ensures
        0 <= steps_left(state) <= 12,
        state.phase != Phase::Finished ==> steps_left(state.transition(event).0) < steps_left(
            state,
        ),
        state.phase == Phase::Finished ==> state.transition(event) == (
            state,
            ActionView::Finish { outcome: state.outcome() },
        ),
{
}

/// The fetch runs its invocations in order and stops at the first that
/// fails. An invocation goes out only when the working copy was created, and
/// then it is the first of the plan, or when the one before it succeeded,
/// and then it is the next of the plan. After one that did not succeed the
/// working copy is removed: no further invocation goes out, and none is
/// tried again.
pub proof fn lemma_fetch_stops_at_failure(state: WorkflowView, event: EventView)
    ensures
        state.transition(event).1 is Fetch ==> {
            ||| state.phase == Phase::Creating && event is Created && state.transition(event).0.fetched
                == 0 && state.transition(event).1->Fetch_command == fetch_plan(
                state.repo,
                event->Created_dir,
            )[0]
            ||| state.phase == Phase::Fetching && event is Done && state.fetched + 1 < fetch_plan(
                state.repo,
                state.dir,
            ).len() && state.transition(event).0.fetched == state.fetched + 1
                && state.transition(event).1->Fetch_command == fetch_plan(
                state.repo,
                state.dir,
            )[state.fetched + 1]
        },
        state.phase == Phase::Fetching && !(event is Done) ==> state.transition(event) == (
            WorkflowView {
                phase: Phase::Disposing,
                failure: Some(first_failure(state.failure, Failure::Fetch)),
                ..state
            },
            ActionView::Dispose { dir: state.dir },
        ),
        state.phase == Phase::Disposing || state.phase == Phase::Finished ==> state.transition(
            event,
        ).1 is Finish,
{
}

/// What the subtree's own manifest holds decides nothing: whatever is
/// reported of it, the workflow goes on to load the project's manifest, and
/// its state is the same.
pub proof fn lemma_payload_manifest_decides_nothing(
    state: WorkflowView,
    event: EventView,
    other: EventView,
)
    requires
        state.phase == Phase::ReadingPayload,
    ensures
        state.transition(event) == state.transition(other),
        state.transition(event) == (
            WorkflowView { phase: Phase::Loading, ..state },
            ActionView::LoadManifest,
        ),
{
}

/// How the subtree is copied. The copy is asked for only after the source
/// was probed, and in the way that its kind calls for. For a directory that
/// is a copy of what it holds to the destination path itself, which is
/// created where it is missing, overwriting the files that are there. A
/// source that cannot be read is not copied: the step fails and the working
/// copy is removed.
pub proof fn lemma_payload_copy(state: WorkflowView, event: EventView)
    ensures
        state.transition(event).1 is CopyPayload ==> state.phase == Phase::Probing && event is Kind
            && state.transition(event).1 == (ActionView::CopyPayload {
            dir: state.dir,
            remote_path: state.remote_path,
            local_path: state.local_path,
            how: copy_plan(event->kind),
        }) && copy_plan(event->kind) != CopyStep::Missing,
        state.phase == Phase::Probing && event == (EventView::Kind { kind: PathKind::Directory })
            ==> state.transition(event).1 is CopyPayload && ({
            let how = state.transition(event).1->how;
            how is Tree && how->options.content_only && how->options.copy_inside
                && how->options.overwrite && !how->options.skip_exist && how->options.depth == 0
        }),
        state.phase == Phase::Probing && event == (EventView::Kind { kind: PathKind::File })
            ==> state.transition(event).1 is CopyPayload && state.transition(event).1->how
            == CopyStep::File,
        state.phase == Phase::Probing && event == (EventView::Kind { kind: PathKind::Unreadable })
            ==> state.transition(event).1 == (ActionView::Dispose { dir: state.dir })
            && state.transition(event).0.failure == Some(
            first_failure(state.failure, Failure::CopyPayload),
        ),
{
}

/// A working copy that exists is removed before the workflow ends, whatever
/// happens: while it exists nothing ends the workflow, every event either
/// keeps it or asks for its removal, and it stays the same directory.
pub proof fn lemma_working_copy_is_removed(state: WorkflowView, event: EventView)
    requires
        holds_working_copy(state.phase),
    ensures
        !(state.transition(event).1 is Finish),
        state.transition(event).0.dir == state.dir,
        holds_working_copy(state.transition(event).0.phase) || (state.transition(event).0.phase
            == Phase::Disposing && state.transition(event).1 == (ActionView::Dispose {
            dir: state.dir,
        })),
{
}

/// The manifest is merged once, turned into text, written, and only then
/// the subtree is probed and copied: each of these actions follows the success of the
/// one before it, and none follows a failure.
pub proof fn lemma_manifest_before_copy(state: WorkflowView, event: EventView)
    ensures
        state.transition(event).1 is SerializeManifest ==> state.phase == Phase::Loading,
        state.transition(event).1 is SaveManifest ==> state.phase == Phase::Serializing
            && event is Text,
        state.transition(event).1 is ProbePayload ==> state.phase == Phase::Saving && event is Done,
        state.transition(event).1 is CopyPayload ==> state.phase == Phase::Probing,
        state.transition(event).0.failure != state.failure ==> state.transition(event).1 is Dispose
            || state.transition(event).1 is Finish,
{
}

/// The first failure is the one that is reported: a failure that is
/// recorded stays, and the workflow then ends with it.
pub proof fn lemma_first_failure_is_kept(state: WorkflowView, event: EventView)
    requires
        state.failure is Some,
    ensures
        state.transition(event).0.failure == state.failure,
        state.transition(event).1 is Finish ==> state.transition(event).1 == (ActionView::Finish {
            outcome: Err(state.failure->0),
        }),
{
}

/// Whatever manifest the project has, the one that is written declares the
/// local path of the request, keeps every record it had in its place, and
/// gains at most the one record of the request. A record that is already
/// declared at the local path stops neither the writing nor the copy.
pub proof fn lemma_written_manifest(state: WorkflowView, event: EventView)
    requires
        state.phase == Phase::Loading,
    ensures
        state.transition(event).0.phase == Phase::Serializing,
        state.transition(event).1 is SerializeManifest,
        ({
            let base = match event {
                EventView::Manifest { found: Some(manifest) } => manifest,
                _ => empty_manifest(),
            };
            let written = state.transition(event).1->manifest;
            &&& written == base.merged(state.record())
            &&& state.transition(event).0.added == base.accepts(state.record())
            &&& base.records().is_prefix_of(written.records())
            &&& declares(written.records(), state.record().local_path)
            &&& base.consistent() ==> written.consistent()
        }),
{
    let base = match event {
        EventView::Manifest { found: Some(manifest) } => manifest,
        _ => empty_manifest(),
    };
    lemma_merge_keeps_prior(base, state.record());
    if base.consistent() {
        lemma_merge_keeps_consistent(base, state.record());
    }
}

} // verus!
