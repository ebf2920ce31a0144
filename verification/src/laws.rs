//! What holds of every run of the pipeline.
//!
//! A run is a sequence of events handed to a pipeline one after the other.
//! The laws speak of `next`, which is what `Pipeline::step` computes.

use crate::cache::lock_file;
use crate::classpath::{resolved_classpath, separator, LibraryEntry};
use crate::config::CupConfig;
use crate::discovery::{
    discovered, holds_language, paths_of, walk_if_present, FsNode, Language, SourceFileView,
};
use crate::error::{BuildErrorView, Tool};
use crate::pipeline::{
    next, nothing_found, opened, proceed, project_root, ActionView, Event, Goal, PipelineView,
    Stage,
};
use crate::toolchain::{
    compiler_args, outcome_of, phases, with_output, InvocationView, ProcessResult,
};
use vstd::prelude::*;

verus! {

/// The state of a pipeline that began as `m` and took in `events`.
pub open spec fn run(m: PipelineView, events: Seq<Event>) -> PipelineView
    decreases events.len(),
{
    if events.len() == 0 {
        m
    } else {
        next(run(m, events.drop_last()), events.last()).0
    }
}

/// The action with which the pipeline answers the event at `at`.
pub open spec fn answer(m: PipelineView, events: Seq<Event>, at: int) -> ActionView {
    next(run(m, events.take(at)), events[at]).1
}

/// Taking in one more event is one more step.
pub proof fn lemma_run_step(m: PipelineView, events: Seq<Event>, at: int)
    requires
        0 <= at < events.len(),
    ensures
        run(m, events.take(at + 1)) == next(run(m, events.take(at)), events[at]).0,
{
    assert(events.take(at + 1).drop_last() =~= events.take(at));
}

/// A pipeline that has finished stays finished.
pub proof fn lemma_done_stays_done(m: PipelineView, events: Seq<Event>, from: int, at: int)
    requires
        0 <= from <= at <= events.len(),
        run(m, events.take(from)).stage == Stage::Done,
    ensures
        run(m, events.take(at)).stage == Stage::Done,
    decreases at - from,
{
    if from < at {
        lemma_done_stays_done(m, events, from, at - 1);
        lemma_run_step(m, events, at - 1);
    }
}

/// The two listings of a pipeline amount to discovery.
///
/// A pipeline is opened and handed the listing of the source root, and
/// after it, where it asks, that of the project root. Where discovery
/// fails, the pipeline ends with that failure; where discovery finds no
/// source file, it ends with the error for a project without sources; and
/// where discovery finds files, it goes on with exactly those.
pub proof fn law_pipeline_discovers_as_discovery_does(
    goal: Goal,
    config: CupConfig,
    home: Option<String>,
    windows: bool,
    root: Option<FsNode>,
    project: Option<FsNode>,
)
    ensures
        ({
            let m = opened(goal, config, home, windows).0;
            let (first, asked) = next(m, Event::Scanned(root));
            let (last, answered) = if asked == (ActionView::Scan { dir: project_root() }) {
                next(first, Event::Scanned(project))
            } else {
                (first, asked)
            };
            match discovered(root, project) {
                Err(blocked) => answered == ActionView::Finish(
                    Err(BuildErrorView::Discovery { path: blocked }),
                ),
                Ok(found) => if found.len() == 0 {
                    answered == ActionView::Finish(Err(nothing_found(goal)))
                } else {
                    (last, answered) == proceed(m, found)
                },
            }
        }),
{
}

/// A project without a single source file is never built: the pipeline
/// answers the listing of the source root by asking for that of the project
/// root, and that by ending, with `EmptyProject` where it was to build or
/// run. Whatever it is handed afterwards, it asks for no process to be
/// started.
pub proof fn law_empty_project_starts_nothing(
    goal: Goal,
    config: CupConfig,
    home: Option<String>,
    windows: bool,
    root: Option<FsNode>,
    project: Option<FsNode>,
    events: Seq<Event>,
    at: int,
)
    requires
        discovered(root, project) matches Ok(found) && found.len() == 0,
        events.len() >= 2,
        events[0] == Event::Scanned(root),
        events[1] == Event::Scanned(project),
        0 <= at < events.len(),
    ensures
        answer(opened(goal, config, home, windows).0, events, 0) == (ActionView::Scan {
            dir: project_root(),
        }),
        goal != Goal::Document ==> answer(opened(goal, config, home, windows).0, events, 1)
            == ActionView::Finish(Err(BuildErrorView::EmptyProject)),
        answer(opened(goal, config, home, windows).0, events, 1) is Finish,
        !(answer(opened(goal, config, home, windows).0, events, at) is Spawn),
{
    let m = opened(goal, config, home, windows).0;
    assert(events.take(0) =~= Seq::empty());
    lemma_run_step(m, events, 0);
    lemma_run_step(m, events, 1);
    if at > 1 {
        lemma_done_stays_done(m, events, 2, at);
    }
}

/// Where a language is among the files, it has paths.
pub proof fn lemma_language_has_paths(files: Seq<SourceFileView>, language: Language)
    requires
        holds_language(files, language),
    ensures
        paths_of(files, language).len() > 0,
{
    let at = choose|i: int| 0 <= i < files.len() && (#[trigger] files[i]).language == language;
    let kept = files.filter(|file: SourceFileView| file.language == language);
    files.lemma_filter_contains(|file: SourceFileView| file.language == language, at);
    assert(kept.contains(files[at]));
}

/// Sources that are not empty call for at least one compiler run.
pub proof fn lemma_sources_have_phases(
    files: Seq<SourceFileView>,
    output_dir: Seq<char>,
    classpath: Option<Seq<char>>,
    windows: bool,
)
    requires
        files.len() > 0,
    ensures
        phases(files, output_dir, classpath, windows).len() > 0,
{
    let language = files[0].language;
    assert(holds_language(files, language));
    lemma_language_has_paths(files, language);
}

/// What holds of every state that a pipeline reaches: once discovery is
/// through there are sources; a compiler is awaited only within the plan;
/// and a launch is prepared only for a run with a main class.
pub open spec fn well_formed(m: PipelineView) -> bool {
    &&& (m.stage != Stage::Scanning && m.stage != Stage::ScanningProject && m.stage
        != Stage::Done ==> m.sources.len() > 0)
    &&& (m.stage == Stage::Compiling ==> 0 <= m.phase < m.plan.len())
    &&& (m.stage == Stage::ResolvingLaunch || m.stage == Stage::Launching ==> m.goal == Goal::Run
        && m.main_class is Some)
}

/// A pipeline is well formed as it is opened.
pub proof fn lemma_opened_well_formed(
    goal: Goal,
    config: CupConfig,
    home: Option<String>,
    windows: bool,
)
    ensures
        well_formed(opened(goal, config, home, windows).0),
{
}

/// A step keeps a pipeline well formed.
pub proof fn lemma_next_well_formed(m: PipelineView, event: Event)
    requires
        well_formed(m),
    ensures
        well_formed(next(m, event).0),
{
    if m.stage == Stage::Resolving {
        if let Event::Inspected { libraries, present } = event {
            lemma_sources_have_phases(
                m.sources,
                m.settings.output_dir,
                resolved_classpath(libraries@, present@, m.windows),
                m.windows,
            );
        }
    }
}

/// Every run of a well-formed pipeline ends well formed.
pub proof fn lemma_run_well_formed(m: PipelineView, events: Seq<Event>)
    requires
        well_formed(m),
    ensures
        well_formed(run(m, events)),
    decreases events.len(),
{
    if events.len() > 0 {
        lemma_run_well_formed(m, events.drop_last());
        lemma_next_well_formed(run(m, events.drop_last()), events.last());
    }
}

/// Whether an action starts a compiler.
pub open spec fn starts_compiler(action: ActionView) -> bool {
    action matches ActionView::Spawn(invocation) && (invocation.tool == Tool::Javac
        || invocation.tool == Tool::Kotlinc)
}

/// The stages behind the build, short of a retry.
pub open spec fn past_build(stage: Stage) -> bool {
    stage == Stage::ResolvingLaunch || stage == Stage::Launching || stage == Stage::Done
}

proof fn lemma_skipped_build_stays_past(
    m: PipelineView,
    digest: Vec<u8>,
    events: Seq<Event>,
    at: int,
)
    requires
        m.stage == Stage::HashingBefore,
        m.lock == Some(digest@),
        1 <= at <= events.len(),
        events[0] == Event::Hashed(Some(digest)),
        forall|j: int| 0 <= j < at ==> !(#[trigger] answer(m, events, j) is DeleteLock),
    ensures
        past_build(run(m, events.take(at)).stage),
    decreases at,
{
    lemma_run_step(m, events, at - 1);
    if at == 1 {
        assert(events.take(0) =~= Seq::empty());
    } else {
        lemma_skipped_build_stays_past(m, digest, events, at - 1);
        assert(!(answer(m, events, at - 1) is DeleteLock));
    }
}

/// Sources that have not changed are not compiled again.
///
/// The pipeline has read a lock file and is handed the digest of the
/// sources. Where the two are equal, which is how a successful build leaves
/// them for the next invocation over the same tree, no compiler is started:
/// not in answer to the digest, and not in answer to anything handed in
/// afterwards, for as long as the pipeline has not asked for the lock file
/// to be deleted.
pub proof fn law_unchanged_sources_are_not_compiled(
    m: PipelineView,
    digest: Vec<u8>,
    events: Seq<Event>,
    at: int,
)
    requires
        m.stage == Stage::HashingBefore,
        m.lock == Some(digest@),
        0 <= at < events.len(),
        events[0] == Event::Hashed(Some(digest)),
        forall|j: int| 0 <= j < at ==> !(#[trigger] answer(m, events, j) is DeleteLock),
    ensures
        !starts_compiler(answer(m, events, at)),
{
    if at == 0 {
        assert(events.take(0) =~= Seq::empty());
    } else {
        lemma_skipped_build_stays_past(m, digest, events, at);
    }
}

/// Sources that have changed are compiled in full.
///
/// The pipeline has read a lock file and is handed a digest that differs
/// from it. It then resolves the classpath and, whatever that yields,
/// starts the first compiler run that its sources call for.
pub proof fn law_changed_sources_are_compiled(
    m: PipelineView,
    digest: Vec<u8>,
    libraries: Vec<LibraryEntry>,
    present: Vec<bool>,
)
    requires
        well_formed(m),
        m.stage == Stage::HashingBefore,
        m.lock != Some(digest@),
    ensures
        ({
            let (resolving, asked) = next(m, Event::Hashed(Some(digest)));
            let (compiling, first) = next(resolving, Event::Inspected { libraries, present });
            let plan = phases(
                m.sources,
                m.settings.output_dir,
                resolved_classpath(libraries@, present@, m.windows),
                m.windows,
            );
            &&& asked is Inspect
            &&& compiling.stage == Stage::Compiling
            &&& plan.len() > 0
            &&& first == ActionView::Spawn(plan[0])
            &&& starts_compiler(first)
        }),
{
    lemma_sources_have_phases(
        m.sources,
        m.settings.output_dir,
        resolved_classpath(libraries@, present@, m.windows),
        m.windows,
    );
}

/// In a project of both languages the Kotlin compiler runs before the Java
/// compiler, and the Java compiler finds the output directory on its
/// classpath.
///
/// The pipeline is about to compile sources that hold Java and Kotlin. It
/// first starts the Kotlin compiler, over the Kotlin files and the Java
/// files. However that ends, it then starts the Java compiler, over the
/// Java files, with a classpath whose last entry is the output directory
/// that both compilers write to.
pub proof fn law_mixed_project_compiles_kotlin_first(
    m: PipelineView,
    libraries: Vec<LibraryEntry>,
    present: Vec<bool>,
    result: ProcessResult,
)
    requires
        m.stage == Stage::Resolving,
        holds_language(m.sources, Language::Java),
        holds_language(m.sources, Language::Kotlin),
    ensures
        ({
            let classpath = resolved_classpath(libraries@, present@, m.windows);
            let output_dir = m.settings.output_dir;
            let java = paths_of(m.sources, Language::Java);
            let kotlin = paths_of(m.sources, Language::Kotlin);
            let (compiling, first) = next(m, Event::Inspected { libraries, present });
            let (finishing, second) = next(compiling, Event::Exited(result));
            &&& first == ActionView::Spawn(
                InvocationView {
                    tool: Tool::Kotlinc,
                    args: compiler_args(output_dir, classpath, kotlin + java),
                },
            )
            &&& second == ActionView::Spawn(
                InvocationView {
                    tool: Tool::Javac,
                    args: compiler_args(
                        output_dir,
                        Some(with_output(classpath, output_dir, m.windows)),
                        java,
                    ),
                },
            )
            &&& with_output(classpath, output_dir, m.windows) == match classpath {
                Some(entries) => entries + separator(m.windows) + output_dir,
                None => output_dir,
            }
        }),
{
    lemma_language_has_paths(m.sources, Language::Java);
    lemma_language_has_paths(m.sources, Language::Kotlin);
    let classpath = resolved_classpath(libraries@, present@, m.windows);
    let output_dir = m.settings.output_dir;
    match classpath {
        Some(entries) => {
            let parts = seq![entries, output_dir];
            assert(crate::classpath::optional(classpath) + seq![output_dir] =~= parts);
            assert(parts.drop_last() =~= seq![entries]);
            reveal_with_fuel(crate::text::joined, 3);
        },
        None => {
            assert(crate::classpath::optional(classpath) + seq![output_dir] =~= seq![output_dir]);
        },
    }
}

/// A successful build leaves in the lock file the digest of the sources as
/// they then are.
///
/// When the last compiler run succeeds the pipeline asks for the sources to
/// be hashed, and it asks for exactly the digest it is handed to be written
/// to the lock file.
pub proof fn law_successful_build_records_digest(
    m: PipelineView,
    result: ProcessResult,
    digest: Vec<u8>,
)
    requires
        m.stage == Stage::Compiling,
        0 <= m.phase,
        m.phase + 1 == m.plan.len(),
        outcome_of(m.plan[m.phase].tool, result) is None,
    ensures
        ({
            let (hashing, asked) = next(m, Event::Exited(result));
            let (writing, written) = next(hashing, Event::Hashed(Some(digest)));
            &&& asked == ActionView::Hash { root: m.settings.source_dir }
            &&& written == ActionView::WriteLock { path: lock_file(), digest: digest@ }
        }),
{
}

/// The lock file is written in no other way: only in answer to a digest,
/// with that digest, and only when the step before was the success of the
/// last compiler run.
pub proof fn law_lock_is_written_after_success_only(
    m: PipelineView,
    before: Event,
    event: Event,
)
    requires
        well_formed(m),
        next(next(m, before).0, event).1 is WriteLock,
    ensures
        event matches Event::Hashed(Some(digest)) && next(next(m, before).0, event).1 == (
            ActionView::WriteLock { path: lock_file(), digest: digest@ }),
        m.stage == Stage::Compiling,
        m.phase + 1 == m.plan.len(),
        before matches Event::Exited(result) && outcome_of(m.plan[m.phase].tool, result) is None,
{
    lemma_next_well_formed(m, before);
    if m.stage == Stage::Resolving {
        if let Event::Inspected { libraries, present } = before {
            lemma_sources_have_phases(
                m.sources,
                m.settings.output_dir,
                resolved_classpath(libraries@, present@, m.windows),
                m.windows,
            );
        }
    }
}

/// A build whose last compiler run fails ends the pipeline with that
/// failure, and the lock file is never written.
pub proof fn law_failed_build_keeps_lock(
    m: PipelineView,
    result: ProcessResult,
    events: Seq<Event>,
    at: int,
)
    requires
        m.stage == Stage::Compiling,
        0 <= m.phase,
        m.phase + 1 == m.plan.len(),
        outcome_of(m.plan[m.phase].tool, result) is Some,
        0 <= at < events.len(),
        events[0] == Event::Exited(result),
    ensures
        answer(m, events, 0) == ActionView::Finish(
            Err(outcome_of(m.plan[m.phase].tool, result)->Some_0),
        ),
        !(answer(m, events, at) is WriteLock),
{
    assert(events.take(0) =~= Seq::empty());
    lemma_run_step(m, events, 0);
    if at > 0 {
        lemma_done_stays_done(m, events, 1, at);
    }
}

proof fn lemma_retry_stays_spent(m: PipelineView, events: Seq<Event>, from: int, at: int)
    requires
        0 <= from <= at <= events.len(),
        run(m, events.take(from)).retried,
    ensures
        run(m, events.take(at)).retried,
    decreases at - from,
{
    if from < at {
        lemma_retry_stays_spent(m, events, from, at - 1);
        lemma_run_step(m, events, at - 1);
    }
}

/// A failed launch is retried once at most: in no run does the pipeline ask
/// twice for the lock file to be deleted.
pub proof fn law_retries_at_most_once(m: PipelineView, events: Seq<Event>, first: int, second: int)
    requires
        0 <= first < second < events.len(),
        answer(m, events, first) is DeleteLock,
    ensures
        !(answer(m, events, second) is DeleteLock),
{
    lemma_run_step(m, events, first);
    lemma_retry_stays_spent(m, events, first + 1, second);
}

/// A run may be taken in two parts: what the pipeline has become after the
/// first `from` events takes in the rest as any pipeline would.
pub proof fn lemma_run_in_two_parts(m: PipelineView, events: Seq<Event>, from: int, at: int)
    requires
        0 <= from <= at <= events.len(),
    ensures
        run(m, events.take(at)) == run(
            run(m, events.take(from)),
            events.skip(from).take(at - from),
        ),
    decreases at - from,
{
    let rest = events.skip(from);
    if from == at {
        assert(rest.take(0) =~= Seq::empty());
    } else {
        lemma_run_in_two_parts(m, events, from, at - 1);
        lemma_run_step(m, events, at - 1);
        lemma_run_step(run(m, events.take(from)), rest, at - from - 1);
    }
}

/// How many listings discovery asks for: one where the source root holds
/// sources, else two.
pub open spec fn listings(root: Option<FsNode>) -> int {
    if walk_if_present(root) matches Ok(found) && found.len() > 0 {
        1
    } else {
        2
    }
}

/// The second of two invocations over the same tree compiles nothing.
///
/// A pipeline that builds or runs is opened and discovers sources. The lock
/// file holds what the invocation before it wrote there, which was the
/// digest of the tree (`law_successful_build_records_digest`); the tree
/// being the same, the digest it is handed now is the same. Then no action
/// of the pipeline starts a compiler, for as long as it has not asked for
/// the lock file to be deleted.
pub proof fn law_second_invocation_compiles_nothing(
    goal: Goal,
    config: CupConfig,
    home: Option<String>,
    windows: bool,
    root: Option<FsNode>,
    project: Option<FsNode>,
    stored: Vec<u8>,
    digest: Vec<u8>,
    events: Seq<Event>,
    at: int,
)
    requires
        goal != Goal::Document,
        discovered(root, project) matches Ok(found) && found.len() > 0,
        stored@ == digest@,
        events.len() >= listings(root) + 3,
        events[0] == Event::Scanned(root),
        listings(root) == 2 ==> events[1] == Event::Scanned(project),
        events[listings(root)] == Event::DirCreated(true),
        events[listings(root) + 1] == Event::LockRead(Some(stored)),
        events[listings(root) + 2] == Event::Hashed(Some(digest)),
        0 <= at < events.len(),
        forall|j: int|
            0 <= j < at ==> !(#[trigger] answer(
                opened(goal, config, home, windows).0,
                events,
                j,
            ) is DeleteLock),
    ensures
        !starts_compiler(answer(opened(goal, config, home, windows).0, events, at)),
{
    let m = opened(goal, config, home, windows).0;
    let scans = listings(root);
    assert(events.take(0) =~= Seq::empty());
    lemma_run_step(m, events, 0);
    lemma_run_step(m, events, 1);
    lemma_run_step(m, events, 2);
    lemma_run_step(m, events, 3);
    let hashing = run(m, events.take(scans + 2));
    assert(hashing.stage == Stage::HashingBefore);
    assert(hashing.lock == Some(digest@));
    if at >= scans + 2 {
        let rest = events.skip(scans + 2);
        lemma_run_in_two_parts(m, events, scans + 2, at);
        assert forall|j: int| 0 <= j < at - (scans + 2) implies !(#[trigger] answer(
            hashing,
            rest,
            j,
        ) is DeleteLock) by {
            lemma_run_in_two_parts(m, events, scans + 2, j + scans + 2);
            assert(!(answer(m, events, j + scans + 2) is DeleteLock));
        }
        law_unchanged_sources_are_not_compiled(hashing, digest, rest, at - (scans + 2));
    }
}

} // verus!
