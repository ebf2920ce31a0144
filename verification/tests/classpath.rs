use cup::classpath::{
    add_kotlin_runtime_to_classpath, answers_behind, build_classpath, expand_home,
    kotlin_launch_paths, kotlin_runtime_paths, path_separator, pick_first_present,
    runtime_classpath, LibraryEntry,
};
use cup::text::{append_all, join};

fn entry(path: &str, extension: Option<&str>) -> LibraryEntry {
    LibraryEntry { path: path.to_string(), extension: extension.map(|e| e.to_string()) }
}

fn strings(items: &[&str]) -> Vec<String> {
    items.iter().map(|item| item.to_string()).collect()
}

#[test]
fn join_puts_the_separator_between_parts() {
    assert_eq!(join(&strings(&[]), ":"), "");
    assert_eq!(join(&strings(&["a"]), ":"), "a");
    assert_eq!(join(&strings(&["a", "b"]), ":"), "a:b");
    assert_eq!(join(&strings(&["lib/x.jar", "", "out"]), ";"), "lib/x.jar;;out");
    assert_eq!(join(&strings(&["a", "b", "c"]), ", "), "a, b, c");
}

#[test]
fn append_all_keeps_order() {
    let mut args = strings(&["-d", "out"]);
    append_all(&mut args, &strings(&["A.java", "B.java"]));
    assert_eq!(args, strings(&["-d", "out", "A.java", "B.java"]));
    append_all(&mut args, &Vec::new());
    assert_eq!(args.len(), 4);
}

#[test]
fn separator_depends_on_the_host() {
    assert_eq!(path_separator(false), ":");
    assert_eq!(path_separator(true), ";");
}

#[test]
fn no_entries_is_no_classpath() {
    assert_eq!(build_classpath(&vec![], &vec![], false), None);
    assert_eq!(build_classpath(&vec![], &vec![false, false, false, false], false), None);
    assert_eq!(
        build_classpath(&vec![entry("lib/readme.txt", Some("txt")), entry("lib/bin", None)], &vec![], true),
        None
    );
}

#[test]
fn classpath_lists_archives_then_the_first_runtime() {
    let libraries = vec![
        entry("lib/b.jar", Some("jar")),
        entry("lib/notes.md", Some("md")),
        entry("lib/a.jar", Some("jar")),
        entry("lib/JAR", None),
    ];
    assert_eq!(
        build_classpath(&libraries, &vec![false, true, false, true], false),
        Some("lib/b.jar:lib/a.jar:/opt/kotlin/lib/kotlin-stdlib.jar".to_string())
    );
    assert_eq!(
        build_classpath(&libraries, &vec![false, false, false, false], true),
        Some("lib/b.jar;lib/a.jar".to_string())
    );
    assert_eq!(
        build_classpath(&vec![], &vec![false, false, false, true], false),
        Some("/usr/local/share/kotlin/lib/kotlin-stdlib.jar".to_string())
    );
}

#[test]
fn missing_answers_count_as_absent() {
    assert_eq!(build_classpath(&vec![], &vec![false], false), None);
    assert_eq!(
        build_classpath(&vec![], &vec![true], false),
        Some("/usr/share/kotlin/lib/kotlin-stdlib.jar".to_string())
    );
    assert_eq!(
        build_classpath(&vec![], &vec![false, false, false, false, true], false),
        None
    );
}

#[test]
fn runtime_is_looked_for_in_four_places() {
    assert_eq!(
        kotlin_runtime_paths(),
        strings(&[
            "/usr/share/kotlin/lib/kotlin-stdlib.jar",
            "/opt/kotlin/lib/kotlin-stdlib.jar",
            "~/.kotlinc/lib/kotlin-stdlib.jar",
            "/usr/local/share/kotlin/lib/kotlin-stdlib.jar",
        ])
    );
}

#[test]
fn home_is_written_into_paths_that_begin_with_a_tilde() {
    let home = Some("/home/ada".to_string());
    assert_eq!(expand_home("~/.kotlinc/lib/x.jar", &home), "/home/ada/.kotlinc/lib/x.jar");
    assert_eq!(expand_home("/opt/~/x.jar", &home), "/opt/~/x.jar");
    assert_eq!(expand_home("~/a~b", &home), "/home/ada/a/home/adab");
    assert_eq!(expand_home("~", &home), "/home/ada");
    assert_eq!(expand_home("", &home), "");
    assert_eq!(expand_home("~/x", &None), "~/x");
    assert_eq!(expand_home("~/\u{e9}t\u{e9}", &Some("/h\u{f6}me".to_string())), "/h\u{f6}me/\u{e9}t\u{e9}");
}

#[test]
fn launch_probes_six_places() {
    assert_eq!(
        kotlin_launch_paths(&Some("/home/ada".to_string())),
        strings(&[
            "/usr/share/kotlin/lib/kotlin-stdlib.jar",
            "/opt/kotlin/lib/kotlin-stdlib.jar",
            "/home/ada/.kotlinc/lib/kotlin-stdlib.jar",
            "/usr/local/share/kotlin/lib/kotlin-stdlib.jar",
            "C:\\Program Files\\Kotlin\\lib\\kotlin-stdlib.jar",
            "C:\\kotlin\\lib\\kotlin-stdlib.jar",
        ])
    );
    assert_eq!(kotlin_launch_paths(&None)[2], "~/.kotlinc/lib/kotlin-stdlib.jar");
}

#[test]
fn first_present_candidate_is_picked() {
    let candidates = strings(&["a", "b", "c"]);
    assert_eq!(pick_first_present(&candidates, &vec![false, true, true]), Some("b".to_string()));
    assert_eq!(pick_first_present(&candidates, &vec![false, false, false]), None);
    assert_eq!(pick_first_present(&candidates, &vec![]), None);
    assert_eq!(pick_first_present(&candidates, &vec![false, false, false, true]), None);
    assert_eq!(pick_first_present(&Vec::new(), &vec![true]), None);
}

#[test]
fn kotlin_runtime_is_added_once_or_not_at_all() {
    let home = Some("/home/ada".to_string());
    let mut parts = strings(&["build/classes"]);
    add_kotlin_runtime_to_classpath(&mut parts, &home, &vec![false, false, true, true, false, false]);
    assert_eq!(parts, strings(&["build/classes", "/home/ada/.kotlinc/lib/kotlin-stdlib.jar"]));
    let mut untouched = strings(&["build/classes"]);
    add_kotlin_runtime_to_classpath(&mut untouched, &home, &vec![false; 6]);
    assert_eq!(untouched, strings(&["build/classes"]));
}

#[test]
fn answers_behind_drops_the_leading_ones() {
    assert_eq!(answers_behind(&vec![true, false, true], 1), vec![false, true]);
    assert_eq!(answers_behind(&vec![true, false, true], 0), vec![true, false, true]);
    assert_eq!(answers_behind(&vec![true, false, true], 3), Vec::<bool>::new());
    assert_eq!(answers_behind(&vec![true], 4), Vec::<bool>::new());
}

#[test]
fn launch_classpath_starts_with_the_output_directory() {
    let home = None;
    assert_eq!(
        runtime_classpath("build/classes", &None, false, &home, &vec![true; 6], false),
        "build/classes"
    );
    assert_eq!(
        runtime_classpath("build/classes", &Some("lib/a.jar".to_string()), false, &home, &vec![], false),
        "build/classes:lib/a.jar"
    );
    assert_eq!(
        runtime_classpath(
            "build/classes",
            &Some("lib/a.jar".to_string()),
            true,
            &home,
            &vec![false, true, false, false, false, false],
            true
        ),
        "build/classes;lib/a.jar;/opt/kotlin/lib/kotlin-stdlib.jar"
    );
    assert_eq!(
        runtime_classpath("out", &None, true, &home, &vec![false; 6], false),
        "out"
    );
}
