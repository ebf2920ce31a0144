//! The build-and-run pipeline as a state machine.
//!
//! The pipeline never acts. It answers each `Event` (something the caller
//! read or did) with the next `Action` (something for the caller to read or
//! do), until the action is `Finish`. What it answers is `next`, a function
//! of its state and the event alone.

use crate::cache::{lock_file, lock_path, same_digest};
use crate::classpath::{
    answers_behind, behind, build_classpath, kotlin_launch_paths, kotlin_runtime_paths,
    launch_classpath, launch_probes, resolved_classpath, runtime_candidates, runtime_classpath,
    LibraryEntry,
};
use crate::config::{BuildSettings, BuildSettingsView, CupConfig};
use crate::discovery::{
    has_language, holds_language, paths_of, source_paths, sources_beneath, views, walk_if_present,
    FsNode, Language, SourceFile, SourceFileView,
};
use crate::error::{BuildError, BuildErrorView, Tool};
use crate::text::{append_all, texts};
use crate::toolchain::{
    commands, documentation_args, javadoc_command, java_command, judge, launch_args, outcome_of,
    phases, plan_compilation, Invocation, InvocationView, ProcessResult,
};
use vstd::prelude::*;
use vstd::string::*;

verus! {

/// What a pipeline is for.
#[derive(Clone, Copy, Debug, PartialEq, Eq, Structural)]
pub enum Goal {
    /// Compile, unless the last build still stands.
    Build,
    /// Build, then launch the main class where one is configured.
    Run,
    /// Generate the documentation of the Java sources.
    Document,
}

/// What a pipeline is waiting for.
#[derive(Clone, Copy, Debug, PartialEq, Eq, Structural)]
pub enum Stage {
    /// The listing of the source root.
    Scanning,
    /// The listing of the project root, the source root holding no source.
    ScanningProject,
    /// The output directory.
    PreparingOutput,
    /// The bytes of the lock file.
    ReadingLock,
    /// The digest of the sources, to hold against the lock file.
    HashingBefore,
    /// The library directory and the runtime probes, for compilation.
    Resolving,
    /// The exit of a compiler.
    Compiling,
    /// The digest of the sources as they were compiled.
    HashingAfter,
    /// The lock file to be written.
    WritingLock,
    /// The library directory and the runtime probes, for the launch.
    ResolvingLaunch,
    /// The exit of the launched program.
    Launching,
    /// The lock file to be deleted, before the one retry.
    DeletingLock,
    /// The exit of the documentation generator.
    Documenting,
    /// Nothing: the pipeline has finished.
    Done,
}

/// What the caller did or read, handed to the pipeline.
#[derive(Debug)]
pub enum Event {
    /// The listing of the directory of the `Scan` action; `None` where it
    /// does not exist.
    Scanned(Option<FsNode>),
    /// Whether the output directory now exists.
    DirCreated(bool),
    /// What the lock file holds; `None` where it could not be opened.
    LockRead(Option<Vec<u8>>),
    /// The digest of the source tree; `None` where hashing failed.
    Hashed(Option<Vec<u8>>),
    /// The entries of the library directory, and for each candidate of the
    /// `Inspect` action, in order, whether a file stands there.
    Inspected { libraries: Vec<LibraryEntry>, present: Vec<bool> },
    /// How the process of the `Spawn` action ended.
    Exited(ProcessResult),
    /// The lock file was written, or could not be.
    LockWritten,
    /// The lock file is gone.
    LockDeleted,
}

/// What the pipeline asks of the caller.
#[derive(Debug, PartialEq, Eq)]
pub enum Action {
    /// List the tree under `dir`; answer with `Scanned`.
    Scan { dir: String },
    /// Create the directory `path` and its parents; answer with `DirCreated`.
    CreateDir { path: String },
    /// Read the file `path`; answer with `LockRead`.
    ReadLock { path: String },
    /// Hash the contents of the tree under `root`; answer with `Hashed`.
    Hash { root: String },
    /// List `library_dir` and probe each of `candidates`; answer with
    /// `Inspected`.
    Inspect { library_dir: String, candidates: Vec<String> },
    /// Run the program to its end; answer with `Exited`.
    Spawn(Invocation),
    /// Write exactly `digest` to the file `path`; answer with `LockWritten`.
    WriteLock { path: String, digest: Vec<u8> },
    /// Delete the file `path`; answer with `LockDeleted`.
    DeleteLock { path: String },
    /// Stop: the pipeline has ended as the result says.
    Finish(Result<(), BuildError>),
}

/// An `Action` with its texts as sequences of characters.
pub enum ActionView {
    Scan { dir: Seq<char> },
    CreateDir { path: Seq<char> },
    ReadLock { path: Seq<char> },
    Hash { root: Seq<char> },
    Inspect { library_dir: Seq<char>, candidates: Seq<Seq<char>> },
    Spawn(InvocationView),
    WriteLock { path: Seq<char>, digest: Seq<u8> },
    DeleteLock { path: Seq<char> },
    Finish(Result<(), BuildErrorView>),
}

impl View for Action {
    type V = ActionView;

    open spec fn view(&self) -> ActionView {
        match *self {
            Action::Scan { dir } => ActionView::Scan { dir: dir@ },
            Action::CreateDir { path } => ActionView::CreateDir { path: path@ },
            Action::ReadLock { path } => ActionView::ReadLock { path: path@ },
            Action::Hash { root } => ActionView::Hash { root: root@ },
            Action::Inspect { library_dir, candidates } => ActionView::Inspect {
                library_dir: library_dir@,
                candidates: texts(candidates@),
            },
            Action::Spawn(invocation) => ActionView::Spawn(invocation@),
            Action::WriteLock { path, digest } => ActionView::WriteLock {
                path: path@,
                digest: digest@,
            },
            Action::DeleteLock { path } => ActionView::DeleteLock { path: path@ },
            Action::Finish(verdict) => ActionView::Finish(
                match verdict {
                    Ok(_) => Ok(()),
                    Err(error) => Err(error@),
                },
            ),
        }
    }
}

/// The state of a pipeline, with its texts as sequences of characters.
pub struct PipelineView {
    pub goal: Goal,
    /// Whether the host separates classpath entries as Windows does.
    pub windows: bool,
    /// The user's home directory, where it is known.
    pub home: Option<String>,
    pub main_class: Option<Seq<char>>,
    pub settings: BuildSettingsView,
    pub stage: Stage,
    /// What discovery found in this pass.
    pub sources: Seq<SourceFileView>,
    /// What the lock file held when it was read in this pass.
    pub lock: Option<Seq<u8>>,
    /// The compiler runs of this pass, and which of them is awaited.
    pub plan: Seq<InvocationView>,
    pub phase: int,
    /// Whether the one retry has been spent.
    pub retried: bool,
    /// The errors that were reported without ending the pipeline.
    pub diagnostics: Seq<BuildErrorView>,
}

/// The project root: the directory in which the orchestrator runs.
pub open spec fn project_root() -> Seq<char> {
    "."@
}

/// Where the library archives stand, relative to the project root.
pub open spec fn library_dir() -> Seq<char> {
    "lib"@
}

/// The pipeline as it is opened, and its first action: a listing of the
/// source root.
pub open spec fn opened(
    goal: Goal,
    config: CupConfig,
    home: Option<String>,
    windows: bool,
) -> (PipelineView, ActionView) {
    begin(
        PipelineView {
            goal,
            windows,
            home,
            main_class: match config.project.main_class {
                Some(name) => Some(name@),
                None => None,
            },
            settings: config.settings_spec(),
            stage: Stage::Scanning,
            sources: Seq::empty(),
            lock: None,
            plan: Seq::empty(),
            phase: 0,
            retried: false,
            diagnostics: Seq::empty(),
        },
    )
}

/// A pass begins with a listing of the source root.
pub open spec fn begin(m: PipelineView) -> (PipelineView, ActionView) {
    (
        PipelineView { stage: Stage::Scanning, ..m },
        ActionView::Scan { dir: m.settings.source_dir },
    )
}

/// The pipeline ends.
pub open spec fn stop(m: PipelineView, verdict: Result<(), BuildErrorView>) -> (
    PipelineView,
    ActionView,
) {
    (PipelineView { stage: Stage::Done, ..m }, ActionView::Finish(verdict))
}

/// The sources are to be hashed.
pub open spec fn hash(m: PipelineView, stage: Stage) -> (PipelineView, ActionView) {
    (PipelineView { stage, ..m }, ActionView::Hash { root: m.settings.source_dir })
}

/// The library directory and the runtime candidates are to be inspected
/// for compilation.
pub open spec fn resolve(m: PipelineView) -> (PipelineView, ActionView) {
    (
        PipelineView { stage: Stage::Resolving, ..m },
        ActionView::Inspect { library_dir: library_dir(), candidates: runtime_candidates() },
    )
}

/// With sources found: documentation starts its generator over the Java
/// files; a build or a run prepares the output directory.
pub open spec fn proceed(m: PipelineView, found: Seq<SourceFileView>) -> (PipelineView, ActionView) {
    match m.goal {
        Goal::Document => (
            PipelineView { stage: Stage::Documenting, sources: found, ..m },
            ActionView::Spawn(
                InvocationView {
                    tool: Tool::Javadoc,
                    args: documentation_args(paths_of(found, Language::Java), m.settings.doc_dir),
                },
            ),
        ),
        _ => (
            PipelineView { stage: Stage::PreparingOutput, sources: found, ..m },
            ActionView::CreateDir { path: m.settings.output_dir },
        ),
    }
}

/// The error for a project without a single source file.
pub open spec fn nothing_found(goal: Goal) -> BuildErrorView {
    match goal {
        Goal::Document => BuildErrorView::NothingToDocument,
        _ => BuildErrorView::EmptyProject,
    }
}

/// After the source root was listed. A listing that could not be completed
/// ends the pipeline. Every source file beneath the root is taken; where
/// there is none, the project root is listed instead.
pub open spec fn on_scanned(m: PipelineView, tree: Option<FsNode>) -> (PipelineView, ActionView) {
    match walk_if_present(tree) {
        Err(blocked) => stop(m, Err(BuildErrorView::Discovery { path: blocked })),
        Ok(found) => if found.len() > 0 {
            proceed(m, found)
        } else {
            (
                PipelineView { stage: Stage::ScanningProject, ..m },
                ActionView::Scan { dir: project_root() },
            )
        },
    }
}

/// After the project root was listed in place of a source root without
/// sources. A project without a single source file ends the pipeline,
/// before anything is started or written.
pub open spec fn on_project_scanned(m: PipelineView, tree: Option<FsNode>) -> (
    PipelineView,
    ActionView,
) {
    match walk_if_present(tree) {
        Err(blocked) => stop(m, Err(BuildErrorView::Discovery { path: blocked })),
        Ok(found) => if found.len() > 0 {
            proceed(m, found)
        } else {
            stop(m, Err(nothing_found(m.goal)))
        },
    }
}

/// After the output directory was asked for.
pub open spec fn on_dir_created(m: PipelineView, created: bool) -> (PipelineView, ActionView) {
    if created {
        (PipelineView { stage: Stage::ReadingLock, ..m }, ActionView::ReadLock { path: lock_file() })
    } else {
        stop(m, Err(BuildErrorView::OutputDir { path: m.settings.output_dir }))
    }
}

/// After the lock file was read. With a lock the sources are hashed to hold
/// against it; without one compilation is prepared at once.
pub open spec fn on_lock_read(m: PipelineView, lock: Option<Vec<u8>>) -> (PipelineView, ActionView) {
    match lock {
        Some(stored) => hash(PipelineView { lock: Some(stored@), ..m }, Stage::HashingBefore),
        None => resolve(PipelineView { lock: None, ..m }),
    }
}

/// After the sources were hashed to hold against the lock. Where the two
/// agree the build is skipped; where they differ everything is compiled.
pub open spec fn on_hashed_before(m: PipelineView, digest: Option<Vec<u8>>) -> (
    PipelineView,
    ActionView,
) {
    match digest {
        None => stop(m, Err(BuildErrorView::Digest)),
        Some(current) => if m.lock == Some(current@) {
            built(m)
        } else {
            resolve(m)
        },
    }
}

/// After the classpath was resolved: the first compiler run of the plan.
pub open spec fn on_resolved(
    m: PipelineView,
    libraries: Vec<LibraryEntry>,
    present: Vec<bool>,
) -> (PipelineView, ActionView) {
    let plan = phases(
        m.sources,
        m.settings.output_dir,
        resolved_classpath(libraries@, present@, m.windows),
        m.windows,
    );
    if plan.len() == 0 {
        hash(PipelineView { plan, phase: 0, ..m }, Stage::HashingAfter)
    } else {
        (PipelineView { stage: Stage::Compiling, plan, phase: 0, ..m }, ActionView::Spawn(plan[0]))
    }
}

/// After a compiler ended. A failure of the last run ends the pipeline; a
/// failure of an earlier run is reported and the next run follows all the
/// same. Success of the last run leads to the lock file.
pub open spec fn on_compiled(m: PipelineView, result: ProcessResult) -> (PipelineView, ActionView) {
    if 0 <= m.phase < m.plan.len() {
        let failure = outcome_of(m.plan[m.phase].tool, result);
        if m.phase + 1 == m.plan.len() {
            match failure {
                None => hash(m, Stage::HashingAfter),
                Some(error) => stop(m, Err(error)),
            }
        } else {
            (
                PipelineView {
                    phase: m.phase + 1,
                    diagnostics: match failure {
                        None => m.diagnostics,
                        Some(error) => m.diagnostics.push(error),
                    },
                    ..m
                },
                ActionView::Spawn(m.plan[m.phase + 1]),
            )
        }
    } else {
        stop(m, Err(BuildErrorView::OutOfTurn))
    }
}

/// After the compiled sources were hashed: that digest goes to the lock
/// file.
pub open spec fn on_hashed_after(m: PipelineView, digest: Option<Vec<u8>>) -> (
    PipelineView,
    ActionView,
) {
    match digest {
        None => stop(m, Err(BuildErrorView::Digest)),
        Some(current) => (
            PipelineView { stage: Stage::WritingLock, ..m },
            ActionView::WriteLock { path: lock_file(), digest: current@ },
        ),
    }
}

/// After a build that succeeded or was skipped. A run goes on to resolve
/// the classpath of the launch where a main class is configured; everything
/// else is done.
pub open spec fn built(m: PipelineView) -> (PipelineView, ActionView) {
    if m.goal == Goal::Run && m.main_class is Some {
        (
            PipelineView { stage: Stage::ResolvingLaunch, ..m },
            ActionView::Inspect {
                library_dir: library_dir(),
                candidates: runtime_candidates() + (if holds_language(m.sources, Language::Kotlin) {
                    launch_probes(m.home)
                } else {
                    Seq::empty()
                }),
            },
        )
    } else {
        stop(m, Ok(()))
    }
}

/// After the classpath of the launch was resolved: the runtime is started
/// on the main class.
pub open spec fn on_launch_resolved(
    m: PipelineView,
    libraries: Vec<LibraryEntry>,
    present: Vec<bool>,
) -> (PipelineView, ActionView) {
    match m.main_class {
        Some(main_class) => (
            PipelineView { stage: Stage::Launching, ..m },
            ActionView::Spawn(
                InvocationView {
                    tool: Tool::Java,
                    args: launch_args(
                        launch_classpath(
                            m.settings.output_dir,
                            resolved_classpath(libraries@, present@, m.windows),
                            holds_language(m.sources, Language::Kotlin),
                            m.home,
                            behind(present@, runtime_candidates().len() as int),
                            m.windows,
                        ),
                        main_class,
                    ),
                },
            ),
        ),
        None => stop(m, Err(BuildErrorView::OutOfTurn)),
    }
}

/// Whether the program left with exit code 1.
pub open spec fn exited_with_one(result: ProcessResult) -> bool {
    result matches ProcessResult::Exited { code, .. } && code == Some(1i32)
}

/// After the launched program ended. Exit code 1 is taken for stale output,
/// once: the failure is reported, the lock file is deleted and the whole
/// pipeline runs again. Any other failure, and exit code 1 on the second
/// launch, ends the pipeline.
pub open spec fn on_launched(m: PipelineView, result: ProcessResult) -> (PipelineView, ActionView) {
    match outcome_of(Tool::Java, result) {
        None => stop(m, Ok(())),
        Some(error) => if exited_with_one(result) && !m.retried {
            (
                PipelineView {
                    stage: Stage::DeletingLock,
                    retried: true,
                    diagnostics: m.diagnostics.push(error),
                    ..m
                },
                ActionView::DeleteLock { path: lock_file() },
            )
        } else {
            stop(m, Err(error))
        },
    }
}

/// After the documentation generator ended.
pub open spec fn on_documented(m: PipelineView, result: ProcessResult) -> (PipelineView, ActionView) {
    match outcome_of(Tool::Javadoc, result) {
        None => stop(m, Ok(())),
        Some(error) => stop(m, Err(error)),
    }
}

/// The state that follows `m` on `event`, and the action that answers the
/// event. An event that the stage does not wait for ends the pipeline.
pub open spec fn next(m: PipelineView, event: Event) -> (PipelineView, ActionView) {
    match (m.stage, event) {
        (Stage::Scanning, Event::Scanned(tree)) => on_scanned(m, tree),
        (Stage::ScanningProject, Event::Scanned(tree)) => on_project_scanned(m, tree),
        (Stage::PreparingOutput, Event::DirCreated(created)) => on_dir_created(m, created),
        (Stage::ReadingLock, Event::LockRead(lock)) => on_lock_read(m, lock),
        (Stage::HashingBefore, Event::Hashed(digest)) => on_hashed_before(m, digest),
        (Stage::Resolving, Event::Inspected { libraries, present }) => on_resolved(
            m,
            libraries,
            present,
        ),
        (Stage::Compiling, Event::Exited(result)) => on_compiled(m, result),
        (Stage::HashingAfter, Event::Hashed(digest)) => on_hashed_after(m, digest),
        (Stage::WritingLock, Event::LockWritten) => built(m),
        (Stage::ResolvingLaunch, Event::Inspected { libraries, present }) => on_launch_resolved(
            m,
            libraries,
            present,
        ),
        (Stage::Launching, Event::Exited(result)) => on_launched(m, result),
        (Stage::DeletingLock, Event::LockDeleted) => begin(m),
        (Stage::Documenting, Event::Exited(result)) => on_documented(m, result),
        _ => stop(m, Err(BuildErrorView::OutOfTurn)),
    }
}

/// The views of a sequence of errors, in the same order.
pub open spec fn errors(reported: Seq<BuildError>) -> Seq<BuildErrorView> {
    reported.map_values(|error: BuildError| error@)
}

/// The view of a verdict.
pub open spec fn verdict_view(verdict: Result<(), BuildError>) -> Result<(), BuildErrorView> {
    match verdict {
        Ok(_) => Ok(()),
        Err(error) => Err(error@),
    }
}

/// A pipeline: what it is for, what it has learnt, and what it waits for.
#[derive(Debug)]
pub struct Pipeline {
    goal: Goal,
    windows: bool,
    home: Option<String>,
    main_class: Option<String>,
    settings: BuildSettings,
    stage: Stage,
    sources: Vec<SourceFile>,
    lock: Option<Vec<u8>>,
    plan: Vec<Invocation>,
    phase: usize,
    retried: bool,
    diagnostics: Vec<BuildError>,
}

impl View for Pipeline {
    type V = PipelineView;

    closed spec fn view(&self) -> PipelineView {
        PipelineView {
            goal: self.goal,
            windows: self.windows,
            home: self.home,
            main_class: match self.main_class {
                Some(name) => Some(name@),
                None => None,
            },
            settings: self.settings@,
            stage: self.stage,
            sources: views(self.sources@),
            lock: match self.lock {
                Some(stored) => Some(stored@),
                None => None,
            },
            plan: commands(self.plan@),
            phase: self.phase as int,
            retried: self.retried,
            diagnostics: errors(self.diagnostics@),
        }
    }
}

impl Pipeline {
    /// Opens a pipeline for `goal` and hands out its first action.
    pub fn open(goal: Goal, config: &CupConfig, home: Option<String>, windows: bool) -> (opening: (
        Pipeline,
        Action,
    ))
        ensures
            (opening.0@, opening.1@) == opened(goal, *config, home, windows),
    {
        let mut pipeline = Pipeline {
            goal,
            windows,
            home,
            main_class: match &config.project.main_class {
                Some(name) => Some(name.clone()),
                None => None,
            },
            settings: config.settings(),
            stage: Stage::Scanning,
            sources: Vec::new(),
            lock: None,
            plan: Vec::new(),
            phase: 0,
            retried: false,
            diagnostics: Vec::new(),
        };
        assert(pipeline@.sources =~= Seq::empty());
        assert(pipeline@.plan =~= Seq::empty());
        assert(pipeline@.diagnostics =~= Seq::empty());
        let action = pipeline.begin();
        (pipeline, action)
    }

    /// Whether the pipeline has finished.
    pub fn is_done(&self) -> (done: bool)
        ensures
            done == (self@.stage == Stage::Done),
    {
        self.stage == Stage::Done
    }

    /// The source files that discovery found in this pass.
    pub fn sources(&self) -> (found: &Vec<SourceFile>)
        ensures
            views(found@) == self@.sources,
    {
        &self.sources
    }

    /// The errors that were reported without ending the pipeline, oldest
    /// first.
    pub fn diagnostics(&self) -> (reported: &Vec<BuildError>)
        ensures
            errors(reported@) == self@.diagnostics,
    {
        &self.diagnostics
    }

    fn begin(&mut self) -> (action: Action)
        ensures
            (final(self)@, action@) == begin(old(self)@),
    {
        self.stage = Stage::Scanning;
        Action::Scan { dir: self.settings.source_dir.clone() }
    }

    fn stop(&mut self, verdict: Result<(), BuildError>) -> (action: Action)
        ensures
            (final(self)@, action@) == stop(old(self)@, verdict_view(verdict)),
    {
        self.stage = Stage::Done;
        Action::Finish(verdict)
    }

    fn hash(&mut self, stage: Stage) -> (action: Action)
        ensures
            (final(self)@, action@) == hash(old(self)@, stage),
    {
        self.stage = stage;
        Action::Hash { root: self.settings.source_dir.clone() }
    }

    fn resolve(&mut self) -> (action: Action)
        ensures
            (final(self)@, action@) == resolve(old(self)@),
    {
        self.stage = Stage::Resolving;
        Action::Inspect {
            library_dir: String::from_str("lib"),
            candidates: kotlin_runtime_paths(),
        }
    }

    fn report(&mut self, error: BuildError)
        ensures
            final(self)@ == (PipelineView {
                diagnostics: old(self)@.diagnostics.push(error@),
                ..old(self)@
            }),
            final(self).plan == old(self).plan,
            final(self).phase == old(self).phase,
    {
        self.diagnostics.push(error);
        assert(errors(self.diagnostics@) =~= errors(old(self).diagnostics@).push(error@));
    }

    fn proceed(&mut self, files: Vec<SourceFile>) -> (action: Action)
        ensures
            (final(self)@, action@) == proceed(old(self)@, views(files@)),
    {
        match self.goal {
            Goal::Document => {
                let java = source_paths(&files, Language::Java);
                let command = javadoc_command(&java, self.settings.doc_dir.as_str());
                self.sources = files;
                self.stage = Stage::Documenting;
                Action::Spawn(command)
            },
            _ => {
                self.sources = files;
                self.stage = Stage::PreparingOutput;
                Action::CreateDir { path: self.settings.output_dir.clone() }
            },
        }
    }

    fn on_scanned(&mut self, tree: Option<FsNode>) -> (action: Action)
        ensures
            (final(self)@, action@) == on_scanned(old(self)@, tree),
    {
        match sources_beneath(&tree) {
            Err(error) => self.stop(Err(error)),
            Ok(files) => {
                if files.len() > 0 {
                    self.proceed(files)
                } else {
                    self.stage = Stage::ScanningProject;
                    Action::Scan { dir: String::from_str(".") }
                }
            },
        }
    }

    fn on_project_scanned(&mut self, tree: Option<FsNode>) -> (action: Action)
        ensures
            (final(self)@, action@) == on_project_scanned(old(self)@, tree),
    {
        match sources_beneath(&tree) {
            Err(error) => self.stop(Err(error)),
            Ok(files) => {
                if files.len() > 0 {
                    self.proceed(files)
                } else {
                    match self.goal {
                        Goal::Document => self.stop(Err(BuildError::NothingToDocument)),
                        _ => self.stop(Err(BuildError::EmptyProject)),
                    }
                }
            },
        }
    }

    fn on_dir_created(&mut self, created: bool) -> (action: Action)
        ensures
            (final(self)@, action@) == on_dir_created(old(self)@, created),
    {
        if created {
            self.stage = Stage::ReadingLock;
            Action::ReadLock { path: lock_path() }
        } else {
            let path = self.settings.output_dir.clone();
            self.stop(Err(BuildError::OutputDir { path }))
        }
    }

    fn on_lock_read(&mut self, lock: Option<Vec<u8>>) -> (action: Action)
        ensures
            (final(self)@, action@) == on_lock_read(old(self)@, lock),
    {
        match lock {
            Some(stored) => {
                self.lock = Some(stored);
                self.hash(Stage::HashingBefore)
            },
            None => {
                self.lock = None;
                self.resolve()
            },
        }
    }

    fn on_hashed_before(&mut self, digest: Option<Vec<u8>>) -> (action: Action)
        ensures
            (final(self)@, action@) == on_hashed_before(old(self)@, digest),
    {
        match digest {
            None => self.stop(Err(BuildError::Digest)),
            Some(current) => {
                let current_stands = match &self.lock {
                    Some(stored) => same_digest(stored, &current),
                    None => false,
                };
                if current_stands {
                    self.built()
                } else {
                    self.resolve()
                }
            },
        }
    }

    fn on_resolved(&mut self, libraries: Vec<LibraryEntry>, present: Vec<bool>) -> (action: Action)
        ensures
            (final(self)@, action@) == on_resolved(old(self)@, libraries, present),
    {
        let classpath = build_classpath(&libraries, &present, self.windows);
        let plan = plan_compilation(
            &self.sources,
            self.settings.output_dir.as_str(),
            &classpath,
            self.windows,
        );
        if plan.len() == 0 {
            self.plan = plan;
            self.phase = 0;
            self.hash(Stage::HashingAfter)
        } else {
            let first = plan[0].duplicate();
            self.plan = plan;
            self.phase = 0;
            self.stage = Stage::Compiling;
            Action::Spawn(first)
        }
    }

    fn on_compiled(&mut self, result: ProcessResult) -> (action: Action)
        ensures
            (final(self)@, action@) == on_compiled(old(self)@, result),
    {
        if self.phase < self.plan.len() {
            let verdict = judge(self.plan[self.phase].tool, &result);
            if self.phase + 1 == self.plan.len() {
                match verdict {
                    Ok(()) => self.hash(Stage::HashingAfter),
                    Err(error) => self.stop(Err(error)),
                }
            } else {
                match verdict {
                    Ok(()) => {},
                    Err(error) => {
                        self.report(error);
                    },
                }
                self.phase = self.phase + 1;
                Action::Spawn(self.plan[self.phase].duplicate())
            }
        } else {
            self.stop(Err(BuildError::OutOfTurn))
        }
    }

    fn on_hashed_after(&mut self, digest: Option<Vec<u8>>) -> (action: Action)
        ensures
            (final(self)@, action@) == on_hashed_after(old(self)@, digest),
    {
        match digest {
            None => self.stop(Err(BuildError::Digest)),
            Some(current) => {
                self.stage = Stage::WritingLock;
                Action::WriteLock { path: lock_path(), digest: current }
            },
        }
    }

    fn built(&mut self) -> (action: Action)
        ensures
            (final(self)@, action@) == built(old(self)@),
    {
        let launches = match self.goal {
            Goal::Run => self.main_class.is_some(),
            _ => false,
        };
        if launches {
            let mut candidates = kotlin_runtime_paths();
            if has_language(&self.sources, Language::Kotlin) {
                let probes = kotlin_launch_paths(&self.home);
                append_all(&mut candidates, &probes);
            } else {
                assert(texts(candidates@) =~= runtime_candidates() + Seq::empty());
            }
            self.stage = Stage::ResolvingLaunch;
            Action::Inspect { library_dir: String::from_str("lib"), candidates }
        } else {
            self.stop(Ok(()))
        }
    }

    fn on_launch_resolved(&mut self, libraries: Vec<LibraryEntry>, present: Vec<bool>) -> (action:
        Action)
        ensures
            (final(self)@, action@) == on_launch_resolved(old(self)@, libraries, present),
    {
        match &self.main_class {
            Some(main_class) => {
                let library = build_classpath(&libraries, &present, self.windows);
                let rest = answers_behind(&present, 4);
                let classpath = runtime_classpath(
                    self.settings.output_dir.as_str(),
                    &library,
                    has_language(&self.sources, Language::Kotlin),
                    &self.home,
                    &rest,
                    self.windows,
                );
                let command = java_command(classpath.as_str(), main_class.as_str());
                self.stage = Stage::Launching;
                Action::Spawn(command)
            },
            None => self.stop(Err(BuildError::OutOfTurn)),
        }
    }

    fn on_launched(&mut self, result: ProcessResult) -> (action: Action)
        ensures
            (final(self)@, action@) == on_launched(old(self)@, result),
    {
        match judge(Tool::Java, &result) {
            Ok(()) => self.stop(Ok(())),
            Err(error) => {
                let stale = match &result {
                    ProcessResult::Exited { code: Some(value), .. } => *value == 1,
                    _ => false,
                };
                if stale && !self.retried {
                    self.report(error);
                    self.retried = true;
                    self.stage = Stage::DeletingLock;
                    Action::DeleteLock { path: lock_path() }
                } else {
                    self.stop(Err(error))
                }
            },
        }
    }

    fn on_documented(&mut self, result: ProcessResult) -> (action: Action)
        ensures
            (final(self)@, action@) == on_documented(old(self)@, result),
    {
        match judge(Tool::Javadoc, &result) {
            Ok(()) => self.stop(Ok(())),
            Err(error) => self.stop(Err(error)),
        }
    }

    /// Takes in what the caller did or read, and answers with what is to be
    /// done next.
    pub fn step(&mut self, event: Event) -> (action: Action)
        ensures
            (final(self)@, action@) == next(old(self)@, event),
    {
        match self.stage {
            Stage::Scanning => match event {
                Event::Scanned(tree) => self.on_scanned(tree),
                _ => self.stop(Err(BuildError::OutOfTurn)),
            },
            Stage::ScanningProject => match event {
                Event::Scanned(tree) => self.on_project_scanned(tree),
                _ => self.stop(Err(BuildError::OutOfTurn)),
            },
            Stage::PreparingOutput => match event {
                Event::DirCreated(created) => self.on_dir_created(created),
                _ => self.stop(Err(BuildError::OutOfTurn)),
            },
            Stage::ReadingLock => match event {
                Event::LockRead(lock) => self.on_lock_read(lock),
                _ => self.stop(Err(BuildError::OutOfTurn)),
            },
            Stage::HashingBefore => match event {
                Event::Hashed(digest) => self.on_hashed_before(digest),
                _ => self.stop(Err(BuildError::OutOfTurn)),
            },
            Stage::Resolving => match event {
                Event::Inspected { libraries, present } => self.on_resolved(libraries, present),
                _ => self.stop(Err(BuildError::OutOfTurn)),
            },
            Stage::Compiling => match event {
                Event::Exited(result) => self.on_compiled(result),
                _ => self.stop(Err(BuildError::OutOfTurn)),
            },
            Stage::HashingAfter => match event {
                Event::Hashed(digest) => self.on_hashed_after(digest),
                _ => self.stop(Err(BuildError::OutOfTurn)),
            },
            Stage::WritingLock => match event {
                Event::LockWritten => self.built(),
                _ => self.stop(Err(BuildError::OutOfTurn)),
            },
            Stage::ResolvingLaunch => match event {
                Event::Inspected { libraries, present } => self.on_launch_resolved(
                    libraries,
                    present,
                ),
                _ => self.stop(Err(BuildError::OutOfTurn)),
            },
            Stage::Launching => match event {
                Event::Exited(result) => self.on_launched(result),
                _ => self.stop(Err(BuildError::OutOfTurn)),
            },
            Stage::DeletingLock => match event {
                Event::LockDeleted => self.begin(),
                _ => self.stop(Err(BuildError::OutOfTurn)),
            },
            Stage::Documenting => match event {
                Event::Exited(result) => self.on_documented(result),
                _ => self.stop(Err(BuildError::OutOfTurn)),
            },
            Stage::Done => self.stop(Err(BuildError::OutOfTurn)),
        }
    }
}

/// Opens the pipeline that builds the project.
pub fn compile_project(config: &CupConfig, windows: bool) -> (opening: (Pipeline, Action))
    ensures
        (opening.0@, opening.1@) == opened(Goal::Build, *config, None, windows),
{
    Pipeline::open(Goal::Build, config, None, windows)
}

/// Opens the pipeline that builds the project and then launches its main
/// class. `home` is the user's home directory, where it is known.
pub fn run_project(config: &CupConfig, home: Option<String>, windows: bool) -> (opening: (
    Pipeline,
    Action,
))
    ensures
        (opening.0@, opening.1@) == opened(Goal::Run, *config, home, windows),
{
    Pipeline::open(Goal::Run, config, home, windows)
}

/// Opens the pipeline that documents the project's Java sources.
pub fn create_documentation(config: &CupConfig) -> (opening: (Pipeline, Action))
    ensures
        (opening.0@, opening.1@) == opened(Goal::Document, *config, None, false),
{
    Pipeline::open(Goal::Document, config, None, false)
}

} // verus!
