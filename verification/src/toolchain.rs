//! The external programs: how each is invoked, and what its exit means.
//!
//! Nothing here starts a process. An `Invocation` says what to start; a
//! `ProcessResult` says how it ended.

use crate::classpath::{optional, path_separator, separator};
use crate::discovery::{paths_of, source_paths, views, Language, SourceFile, SourceFileView};
use crate::error::{BuildError, BuildErrorView, Tool};
use crate::text::{append_all, join, joined, texts};
use vstd::prelude::*;
use vstd::string::*;
use vstd::utf8::{decode_utf8, valid_utf8};

verus! {

/// One run of an external program: which program, and its arguments in
/// order.
#[derive(Clone, Debug, PartialEq, Eq)]
pub struct Invocation {
    pub tool: Tool,
    pub args: Vec<String>,
}

/// An `Invocation` with its arguments as sequences of characters.
pub struct InvocationView {
    pub tool: Tool,
    pub args: Seq<Seq<char>>,
}

impl View for Invocation {
    type V = InvocationView;

    open spec fn view(&self) -> InvocationView {
        InvocationView { tool: self.tool, args: texts(self.args@) }
    }
}

impl Invocation {
    /// A copy of the invocation.
    pub fn duplicate(&self) -> (copy: Invocation)
        ensures
            copy@ == self@,
    {
        let mut args: Vec<String> = Vec::new();
        append_all(&mut args, &self.args);
        assert(texts(args@) =~= texts(self.args@));
        Invocation { tool: self.tool, args }
    }
}

/// How a process ended.
#[derive(Clone, Debug, PartialEq, Eq)]
pub enum ProcessResult {
    /// The program could not be started at all.
    NotStarted,
    /// The program ran. `code` is its exit code, absent where a signal ended
    /// it; `stderr` is what it wrote to standard error.
    Exited { code: Option<i32>, stderr: Vec<u8> },
}

/// The arguments of a compiler: the output directory, the classpath where
/// there is one, then the files.
pub open spec fn compiler_args(
    output_dir: Seq<char>,
    classpath: Option<Seq<char>>,
    files: Seq<Seq<char>>,
) -> Seq<Seq<char>> {
    seq!["-d"@, output_dir] + (match classpath {
        Some(entries) => seq!["-cp"@, entries],
        None => Seq::empty(),
    }) + files
}

/// The view of a classpath that may be absent.
pub open spec fn classpath_text(classpath: Option<String>) -> Option<Seq<char>> {
    match classpath {
        Some(entries) => Some(entries@),
        None => None,
    }
}

fn compiler_command(
    tool: Tool,
    files: &Vec<String>,
    output_dir: &str,
    classpath: &Option<String>,
) -> (command: Invocation)
    ensures
        command@ == (InvocationView {
            tool,
            args: compiler_args(output_dir@, classpath_text(*classpath), texts(files@)),
        }),
{
    let mut args: Vec<String> = Vec::new();
    args.push(String::from_str("-d"));
    args.push(String::from_str(output_dir));
    match classpath {
        Some(entries) => {
            args.push(String::from_str("-cp"));
            args.push(entries.clone());
        },
        None => {},
    }
    assert(texts(args@) =~= seq!["-d"@, output_dir@] + (match classpath_text(*classpath) {
        Some(entries) => seq!["-cp"@, entries],
        None => Seq::empty(),
    }));
    append_all(&mut args, files);
    Invocation { tool, args }
}

/// The invocation of the Java compiler over `java_files`.
pub fn javac_command(java_files: &Vec<String>, output_dir: &str, classpath: &Option<String>) -> (command:
    Invocation)
    ensures
        command@ == (InvocationView {
            tool: Tool::Javac,
            args: compiler_args(output_dir@, classpath_text(*classpath), texts(java_files@)),
        }),
{
    compiler_command(Tool::Javac, java_files, output_dir, classpath)
}

/// The invocation of the Kotlin compiler over `kotlin_files`.
pub fn kotlinc_command(kotlin_files: &Vec<String>, output_dir: &str, classpath: &Option<String>) -> (command:
    Invocation)
    ensures
        command@ == (InvocationView {
            tool: Tool::Kotlinc,
            args: compiler_args(output_dir@, classpath_text(*classpath), texts(kotlin_files@)),
        }),
{
    compiler_command(Tool::Kotlinc, kotlin_files, output_dir, classpath)
}

/// The invocation of the Kotlin compiler in a project of both languages:
/// the Kotlin files, then the Java files for it to resolve references into.
pub fn kotlinc_command_with_java_sources(
    kotlin_files: &Vec<String>,
    java_files: &Vec<String>,
    output_dir: &str,
    classpath: &Option<String>,
) -> (command: Invocation)
    ensures
        command@ == (InvocationView {
            tool: Tool::Kotlinc,
            args: compiler_args(
                output_dir@,
                classpath_text(*classpath),
                texts(kotlin_files@) + texts(java_files@),
            ),
        }),
{
    let mut files: Vec<String> = Vec::new();
    assert(texts(files@) =~= Seq::empty());
    append_all(&mut files, kotlin_files);
    append_all(&mut files, java_files);
    assert(texts(files@) =~= texts(kotlin_files@) + texts(java_files@));
    compiler_command(Tool::Kotlinc, &files, output_dir, classpath)
}

/// The classpath of the Java compiler in a project of both languages: the
/// resolved classpath where there is one, then the output directory, in
/// which the Kotlin compiler left its classes.
pub open spec fn with_output(classpath: Option<Seq<char>>, output_dir: Seq<char>, windows: bool) -> Seq<
    char,
> {
    joined(optional(classpath) + seq![output_dir], separator(windows))
}

pub fn extend_classpath(classpath: &Option<String>, output_dir: &str, windows: bool) -> (extended:
    String)
    ensures
        extended@ == with_output(classpath_text(*classpath), output_dir@, windows),
{
    let mut entries: Vec<String> = Vec::new();
    match classpath {
        Some(resolved) => {
            entries.push(resolved.clone());
        },
        None => {},
    }
    entries.push(String::from_str(output_dir));
    assert(texts(entries@) =~= optional(classpath_text(*classpath)) + seq![output_dir@]);
    join(&entries, path_separator(windows))
}

/// The compiler runs that a set of source files calls for, in order.
///
/// Java alone or Kotlin alone is one run of its compiler. Both together are
/// two: the Kotlin compiler over all files of both languages, then the Java
/// compiler over the Java files with the output directory on its classpath.
pub open spec fn phases(
    files: Seq<SourceFileView>,
    output_dir: Seq<char>,
    classpath: Option<Seq<char>>,
    windows: bool,
) -> Seq<InvocationView> {
    let java = paths_of(files, Language::Java);
    let kotlin = paths_of(files, Language::Kotlin);
    if java.len() > 0 && kotlin.len() > 0 {
        seq![
            InvocationView {
                tool: Tool::Kotlinc,
                args: compiler_args(output_dir, classpath, kotlin + java),
            },
            InvocationView {
                tool: Tool::Javac,
                args: compiler_args(
                    output_dir,
                    Some(with_output(classpath, output_dir, windows)),
                    java,
                ),
            },
        ]
    } else if kotlin.len() > 0 {
        seq![InvocationView { tool: Tool::Kotlinc, args: compiler_args(output_dir, classpath, kotlin) }]
    } else if java.len() > 0 {
        seq![InvocationView { tool: Tool::Javac, args: compiler_args(output_dir, classpath, java) }]
    } else {
        Seq::empty()
    }
}

/// The views of a sequence of invocations, in the same order.
pub open spec fn commands(invocations: Seq<Invocation>) -> Seq<InvocationView> {
    invocations.map_values(|invocation: Invocation| invocation@)
}

/// Plans the compiler runs for `files`.
pub fn plan_compilation(
    files: &Vec<SourceFile>,
    output_dir: &str,
    classpath: &Option<String>,
    windows: bool,
) -> (plan: Vec<Invocation>)
    ensures
        commands(plan@) == phases(views(files@), output_dir@, classpath_text(*classpath), windows),
{
    let java = source_paths(files, Language::Java);
    let kotlin = source_paths(files, Language::Kotlin);
    let mut plan: Vec<Invocation> = Vec::new();
    if java.len() > 0 && kotlin.len() > 0 {
        plan.push(kotlinc_command_with_java_sources(&kotlin, &java, output_dir, classpath));
        let extended = Some(extend_classpath(classpath, output_dir, windows));
        plan.push(javac_command(&java, output_dir, &extended));
    } else if kotlin.len() > 0 {
        plan.push(kotlinc_command(&kotlin, output_dir, classpath));
    } else if java.len() > 0 {
        plan.push(javac_command(&java, output_dir, classpath));
    }
    assert(commands(plan@) =~= phases(
        views(files@),
        output_dir@,
        classpath_text(*classpath),
        windows,
    ));
    plan
}

/// The arguments of the runtime: the classpath, then the class to launch.
pub open spec fn launch_args(classpath: Seq<char>, main_class: Seq<char>) -> Seq<Seq<char>> {
    seq!["-cp"@, classpath, main_class]
}

/// The invocation of the runtime on `main_class`.
pub fn java_command(classpath: &str, main_class: &str) -> (command: Invocation)
    ensures
        command@ == (InvocationView {
            tool: Tool::Java,
            args: launch_args(classpath@, main_class@),
        }),
{
    let mut args: Vec<String> = Vec::new();
    args.push(String::from_str("-cp"));
    args.push(String::from_str(classpath));
    args.push(String::from_str(main_class));
    assert(texts(args@) =~= launch_args(classpath@, main_class@));
    Invocation { tool: Tool::Java, args }
}

/// The arguments of the documentation generator: the files, then where to
/// write.
pub open spec fn documentation_args(java_files: Seq<Seq<char>>, doc_dir: Seq<char>) -> Seq<Seq<char>> {
    java_files + seq!["-d"@, doc_dir]
}

/// The invocation of the documentation generator over `java_files`.
pub fn javadoc_command(java_files: &Vec<String>, doc_dir: &str) -> (command: Invocation)
    ensures
        command@ == (InvocationView {
            tool: Tool::Javadoc,
            args: documentation_args(texts(java_files@), doc_dir@),
        }),
{
    let mut args: Vec<String> = Vec::new();
    assert(texts(args@) =~= Seq::empty());
    append_all(&mut args, java_files);
    args.push(String::from_str("-d"));
    args.push(String::from_str(doc_dir));
    assert(texts(args@) =~= documentation_args(texts(java_files@), doc_dir@));
    Invocation { tool: Tool::Javadoc, args }
}

/// The text that bytes written by a process stand for, with the replacement
/// character in place of whatever is not UTF-8.
pub uninterp spec fn utf8_lossy(bytes: Seq<u8>) -> Seq<char>;

/// Decodes what a process wrote, by `String::from_utf8_lossy`.
///
/// Trusted: that the text returned is `utf8_lossy` of the bytes, so that
/// equal bytes decode to equal texts; and that bytes which are UTF-8 decode
/// to the text they encode, unchanged.
#[verifier::external_body]
fn decode_lossy(bytes: &Vec<u8>) -> (text: String)
    ensures
        text@ == utf8_lossy(bytes@),
        valid_utf8(bytes@) ==> text@ == decode_utf8(bytes@),
{
    String::from_utf8_lossy(bytes).into_owned()
}

/// The error for a program that could not be started. For the runtime that
/// is a failed launch; for every other program the toolchain is missing.
pub open spec fn not_started(tool: Tool) -> BuildErrorView {
    match tool {
        Tool::Java => BuildErrorView::RuntimeLaunch {
            started: false,
            code: None,
            diagnostics: Seq::empty(),
        },
        _ => BuildErrorView::ToolchainNotFound { tool },
    }
}

/// The error, if any, for a program that ran and left with `code`, having
/// written `diagnostics`. Only exit code 0 is success; the diagnostics are
/// carried as they are.
pub open spec fn failure_of(tool: Tool, code: Option<i32>, diagnostics: Seq<char>) -> Option<
    BuildErrorView,
> {
    if code == Some(0i32) {
        None
    } else {
        match tool {
            Tool::Java => Some(BuildErrorView::RuntimeLaunch { started: true, code, diagnostics }),
            _ => Some(BuildErrorView::Compilation { tool, diagnostics }),
        }
    }
}

/// That `verdict` reports exactly the error `owed`, or success where none
/// is owed.
pub open spec fn reports(verdict: Result<(), BuildError>, owed: Option<BuildErrorView>) -> bool {
    match owed {
        None => verdict is Ok,
        Some(error) => verdict matches Err(reported) && reported@ == error,
    }
}

/// Judges the exit of a program that ran.
pub fn judge_exit(tool: Tool, code: Option<i32>, diagnostics: String) -> (verdict: Result<
    (),
    BuildError,
>)
    ensures
        reports(verdict, failure_of(tool, code, diagnostics@)),
{
    let succeeded = match code {
        Some(value) => value == 0,
        None => false,
    };
    if succeeded {
        Ok(())
    } else {
        match tool {
            Tool::Java => Err(BuildError::RuntimeLaunch { started: true, code, diagnostics }),
            _ => Err(BuildError::Compilation { tool, diagnostics }),
        }
    }
}

/// The error, if any, that the end of a process amounts to.
pub open spec fn outcome_of(tool: Tool, result: ProcessResult) -> Option<BuildErrorView> {
    match result {
        ProcessResult::NotStarted => Some(not_started(tool)),
        ProcessResult::Exited { code, stderr } => failure_of(tool, code, utf8_lossy(stderr@)),
    }
}

/// Judges how a process ended. What the process wrote in UTF-8 is carried
/// in the error as the text that it is.
pub fn judge(tool: Tool, result: &ProcessResult) -> (verdict: Result<(), BuildError>)
    ensures
        reports(verdict, outcome_of(tool, *result)),
        *result matches ProcessResult::Exited { code, stderr } ==> (valid_utf8(stderr@) ==> reports(
            verdict,
            failure_of(tool, code, decode_utf8(stderr@)),
        )),
{
    match result {
        ProcessResult::NotStarted => {
            match tool {
                Tool::Java => Err(
                    BuildError::RuntimeLaunch {
                        started: false,
                        code: None,
                        diagnostics: String::new(),
                    },
                ),
                _ => Err(BuildError::ToolchainNotFound { tool }),
            }
        },
        ProcessResult::Exited { code, stderr } => judge_exit(tool, *code, decode_lossy(stderr)),
    }
}

} // verus!
