use cup::discovery::{Language, SourceFile};
use cup::error::{BuildError, Tool};
use cup::toolchain::{
    extend_classpath, java_command, javac_command, javadoc_command, judge, judge_exit,
    kotlinc_command, kotlinc_command_with_java_sources, plan_compilation, Invocation,
    ProcessResult,
};

fn strings(items: &[&str]) -> Vec<String> {
    items.iter().map(|item| item.to_string()).collect()
}

fn invocation(tool: Tool, args: &[&str]) -> Invocation {
    Invocation { tool, args: strings(args) }
}

fn source(path: &str, language: Language) -> SourceFile {
    SourceFile { path: path.to_string(), language }
}

#[test]
fn javac_takes_output_classpath_and_files() {
    assert_eq!(
        javac_command(&strings(&["A.java", "B.java"]), "build/classes", &Some("lib/x.jar".to_string())),
        invocation(Tool::Javac, &["-d", "build/classes", "-cp", "lib/x.jar", "A.java", "B.java"])
    );
}

#[test]
fn classpath_flag_is_left_out_without_a_classpath() {
    assert_eq!(
        javac_command(&strings(&["A.java"]), "out", &None),
        invocation(Tool::Javac, &["-d", "out", "A.java"])
    );
    assert_eq!(
        kotlinc_command(&strings(&["A.kt"]), "out", &None),
        invocation(Tool::Kotlinc, &["-d", "out", "A.kt"])
    );
}

#[test]
fn an_empty_classpath_is_still_a_classpath() {
    assert_eq!(
        kotlinc_command(&strings(&["A.kt"]), "out", &Some(String::new())),
        invocation(Tool::Kotlinc, &["-d", "out", "-cp", "", "A.kt"])
    );
}

#[test]
fn kotlinc_sees_java_sources_behind_its_own() {
    assert_eq!(
        kotlinc_command_with_java_sources(
            &strings(&["Util.kt"]),
            &strings(&["Main.java", "Other.java"]),
            "out",
            &Some("lib/x.jar".to_string())
        ),
        invocation(Tool::Kotlinc, &["-d", "out", "-cp", "lib/x.jar", "Util.kt", "Main.java", "Other.java"])
    );
}

#[test]
fn output_directory_goes_last_on_the_extended_classpath() {
    assert_eq!(extend_classpath(&None, "build/classes", false), "build/classes");
    assert_eq!(
        extend_classpath(&Some("lib/a.jar:lib/b.jar".to_string()), "build/classes", false),
        "lib/a.jar:lib/b.jar:build/classes"
    );
    assert_eq!(
        extend_classpath(&Some("lib\\a.jar".to_string()), "build\\classes", true),
        "lib\\a.jar;build\\classes"
    );
}

#[test]
fn java_alone_is_one_run_of_javac() {
    let files = vec![source("A.java", Language::Java), source("B.java", Language::Java)];
    assert_eq!(
        plan_compilation(&files, "out", &Some("lib/x.jar".to_string()), false),
        vec![invocation(Tool::Javac, &["-d", "out", "-cp", "lib/x.jar", "A.java", "B.java"])]
    );
}

#[test]
fn kotlin_alone_is_one_run_of_kotlinc() {
    let files = vec![source("A.kt", Language::Kotlin)];
    assert_eq!(
        plan_compilation(&files, "out", &None, false),
        vec![invocation(Tool::Kotlinc, &["-d", "out", "A.kt"])]
    );
}

#[test]
fn both_languages_are_two_runs_kotlin_first() {
    let files = vec![
        source("Main.java", Language::Java),
        source("Util.kt", Language::Kotlin),
        source("Other.java", Language::Java),
    ];
    assert_eq!(
        plan_compilation(&files, "out", &Some("lib/x.jar".to_string()), false),
        vec![
            invocation(
                Tool::Kotlinc,
                &["-d", "out", "-cp", "lib/x.jar", "Util.kt", "Main.java", "Other.java"]
            ),
            invocation(Tool::Javac, &["-d", "out", "-cp", "lib/x.jar:out", "Main.java", "Other.java"]),
        ]
    );
    assert_eq!(
        plan_compilation(&files, "out", &None, true),
        vec![
            invocation(Tool::Kotlinc, &["-d", "out", "Util.kt", "Main.java", "Other.java"]),
            invocation(Tool::Javac, &["-d", "out", "-cp", "out", "Main.java", "Other.java"]),
        ]
    );
}

#[test]
fn no_files_are_no_runs() {
    assert_eq!(plan_compilation(&vec![], "out", &None, false), vec![]);
}

#[test]
fn runtime_takes_classpath_and_main_class() {
    assert_eq!(
        java_command("build/classes:lib/x.jar", "main.Main"),
        invocation(Tool::Java, &["-cp", "build/classes:lib/x.jar", "main.Main"])
    );
}

#[test]
fn javadoc_takes_files_then_output() {
    assert_eq!(
        javadoc_command(&strings(&["A.java", "B.java"]), "doc"),
        invocation(Tool::Javadoc, &["A.java", "B.java", "-d", "doc"])
    );
    assert_eq!(javadoc_command(&vec![], "doc"), invocation(Tool::Javadoc, &["-d", "doc"]));
}

#[test]
fn duplicate_is_equal() {
    let first = invocation(Tool::Kotlinc, &["-d", "out", "A.kt"]);
    assert_eq!(first.duplicate(), first);
}

#[test]
fn exit_code_zero_is_the_only_success() {
    assert_eq!(judge_exit(Tool::Javac, Some(0), "warning: x".to_string()), Ok(()));
    assert_eq!(
        judge_exit(Tool::Javac, Some(1), "A.java:3: error".to_string()),
        Err(BuildError::Compilation { tool: Tool::Javac, diagnostics: "A.java:3: error".to_string() })
    );
    assert_eq!(
        judge_exit(Tool::Kotlinc, Some(-1), String::new()),
        Err(BuildError::Compilation { tool: Tool::Kotlinc, diagnostics: String::new() })
    );
    assert_eq!(
        judge_exit(Tool::Javadoc, None, "killed".to_string()),
        Err(BuildError::Compilation { tool: Tool::Javadoc, diagnostics: "killed".to_string() })
    );
    assert_eq!(judge_exit(Tool::Java, Some(0), String::new()), Ok(()));
    assert_eq!(
        judge_exit(Tool::Java, Some(3), "boom".to_string()),
        Err(BuildError::RuntimeLaunch { started: true, code: Some(3), diagnostics: "boom".to_string() })
    );
}

#[test]
fn a_program_that_cannot_start_is_a_missing_toolchain() {
    assert_eq!(
        judge(Tool::Javac, &ProcessResult::NotStarted),
        Err(BuildError::ToolchainNotFound { tool: Tool::Javac })
    );
    assert_eq!(
        judge(Tool::Kotlinc, &ProcessResult::NotStarted),
        Err(BuildError::ToolchainNotFound { tool: Tool::Kotlinc })
    );
    assert_eq!(
        judge(Tool::Java, &ProcessResult::NotStarted),
        Err(BuildError::RuntimeLaunch { started: false, code: None, diagnostics: String::new() })
    );
}

#[test]
fn diagnostics_are_carried_as_written() {
    let stderr = "Main.java:1: error: ';' expected\n  int x\n       ^\n1 error\n";
    assert_eq!(
        judge(Tool::Javac, &ProcessResult::Exited { code: Some(1), stderr: stderr.as_bytes().to_vec() }),
        Err(BuildError::Compilation { tool: Tool::Javac, diagnostics: stderr.to_string() })
    );
    assert_eq!(
        judge(Tool::Javac, &ProcessResult::Exited { code: Some(0), stderr: b"note".to_vec() }),
        Ok(())
    );
}

#[test]
fn bytes_that_are_not_text_are_replaced() {
    assert_eq!(
        judge(Tool::Kotlinc, &ProcessResult::Exited { code: Some(2), stderr: vec![b'a', 0xff, b'b'] }),
        Err(BuildError::Compilation { tool: Tool::Kotlinc, diagnostics: "a\u{fffd}b".to_string() })
    );
    assert_eq!(
        judge(Tool::Java, &ProcessResult::Exited { code: Some(2), stderr: "caf\u{e9}".as_bytes().to_vec() }),
        Err(BuildError::RuntimeLaunch {
            started: true,
            code: Some(2),
            diagnostics: "caf\u{e9}".to_string()
        })
    );
}
