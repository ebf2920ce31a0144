use cup::discovery::{
    check_for_kotlin_files, classify, collect_java_files, collect_source_files,
    discover_java_files, discover_source_files, has_language, source_paths, sources_beneath,
    FsNode, Language, SourceFile,
};
use cup::error::BuildError;

fn file(dir: &str, name: &str) -> FsNode {
    let extension = name.rsplit_once('.').map(|(_, ext)| ext.to_string());
    FsNode::File { name: name.to_string(), path: format!("{dir}/{name}"), extension }
}

fn dir(parent: &str, name: &str, entries: Vec<FsNode>) -> FsNode {
    let path = if parent.is_empty() { name.to_string() } else { format!("{parent}/{name}") };
    FsNode::Dir { name: name.to_string(), path, entries }
}

fn root(entries: Vec<FsNode>) -> FsNode {
    FsNode::Dir { name: "main".to_string(), path: "src/main".to_string(), entries }
}

fn source(path: &str, language: Language) -> SourceFile {
    SourceFile { path: path.to_string(), language }
}

#[test]
fn classify_knows_java_and_kotlin_only() {
    assert_eq!(classify(&Some("java".to_string())), Some(Language::Java));
    assert_eq!(classify(&Some("kt".to_string())), Some(Language::Kotlin));
    assert_eq!(classify(&Some("kts".to_string())), None);
    assert_eq!(classify(&Some("JAVA".to_string())), None);
    assert_eq!(classify(&Some("class".to_string())), None);
    assert_eq!(classify(&Some(String::new())), None);
    assert_eq!(classify(&None), None);
}

#[test]
fn collect_walks_depth_first_in_listing_order() {
    let tree = dir(
        "src/main",
        "java",
        vec![
            file("src/main/java", "A.java"),
            dir(
                "src/main/java",
                "pkg",
                vec![
                    file("src/main/java/pkg", "B.kt"),
                    file("src/main/java/pkg", "notes.txt"),
                    dir("src/main/java/pkg", "deep", vec![file("src/main/java/pkg/deep", "C.java")]),
                ],
            ),
            file("src/main/java", "README"),
            file("src/main/java", "D.java"),
        ],
    );
    let mut acc = vec![source("earlier.kt", Language::Kotlin)];
    assert_eq!(collect_source_files(&tree, &mut acc), Ok(()));
    assert_eq!(
        acc,
        vec![
            source("earlier.kt", Language::Kotlin),
            source("src/main/java/A.java", Language::Java),
            source("src/main/java/pkg/B.kt", Language::Kotlin),
            source("src/main/java/pkg/deep/C.java", Language::Java),
            source("src/main/java/D.java", Language::Java),
        ]
    );
}

#[test]
fn collect_of_an_empty_directory_adds_nothing() {
    let mut acc = Vec::new();
    assert_eq!(collect_source_files(&dir("src", "main", vec![]), &mut acc), Ok(()));
    assert!(acc.is_empty());
}

#[test]
fn collect_fails_on_an_unreadable_directory_and_keeps_nothing() {
    let tree = dir(
        "src/main",
        "java",
        vec![
            file("src/main/java", "A.java"),
            dir(
                "src/main/java",
                "pkg",
                vec![
                    file("src/main/java/pkg", "B.java"),
                    FsNode::Unreadable {
                        name: "locked".to_string(),
                        path: "src/main/java/pkg/locked".to_string(),
                    },
                    file("src/main/java/pkg", "C.java"),
                ],
            ),
            FsNode::Unreadable { name: "later".to_string(), path: "src/main/java/later".to_string() },
        ],
    );
    let mut acc = vec![source("earlier.java", Language::Java)];
    assert_eq!(
        collect_source_files(&tree, &mut acc),
        Err(BuildError::Discovery { path: "src/main/java/pkg/locked".to_string() })
    );
    assert_eq!(acc, vec![source("earlier.java", Language::Java)]);
}

#[test]
fn collect_fails_on_what_is_not_a_directory() {
    let mut acc = Vec::new();
    assert_eq!(
        collect_source_files(&file("src/main", "java"), &mut acc),
        Err(BuildError::Discovery { path: "src/main/java".to_string() })
    );
    assert!(acc.is_empty());
}

#[test]
fn collect_java_files_is_the_same_walk() {
    let tree = dir("src/main", "java", vec![file("src/main/java", "A.java"), file("src/main/java", "B.kt")]);
    let mut one = Vec::new();
    let mut other = Vec::new();
    assert_eq!(collect_java_files(&tree, &mut one), Ok(()));
    assert_eq!(collect_source_files(&tree, &mut other), Ok(()));
    assert_eq!(one, other);
    assert_eq!(one.len(), 2);
}

#[test]
fn discovery_of_missing_roots_is_empty_without_error() {
    assert_eq!(discover_source_files(&None, &None), Ok(vec![]));
}

#[test]
fn discovery_finds_every_source_file_beneath_the_root() {
    let tree = root(vec![
        dir("src/main", "kotlin", vec![file("src/main/kotlin", "Util.kt")]),
        file("src/main", "Stray.java"),
        dir("src/main", "java", vec![file("src/main/java", "Main.java")]),
        dir("src/main", "extra", vec![dir("src/main/extra", "deep", vec![file("src/main/extra/deep", "B.java")])]),
        file("src/main", "README.md"),
    ]);
    assert_eq!(
        discover_source_files(&Some(tree), &None),
        Ok(vec![
            source("src/main/kotlin/Util.kt", Language::Kotlin),
            source("src/main/Stray.java", Language::Java),
            source("src/main/java/Main.java", Language::Java),
            source("src/main/extra/deep/B.java", Language::Java),
        ])
    );
}

#[test]
fn discovery_does_not_walk_the_project_where_the_root_has_sources() {
    let tree = root(vec![file("src/main", "Main.java")]);
    let project = dir("", ".", vec![file(".", "Other.java")]);
    assert_eq!(
        discover_source_files(&Some(tree), &Some(project)),
        Ok(vec![source("src/main/Main.java", Language::Java)])
    );
    let blocked = FsNode::Unreadable { name: ".".to_string(), path: ".".to_string() };
    assert_eq!(
        discover_source_files(&Some(root(vec![file("src/main", "Main.java")])), &Some(blocked)),
        Ok(vec![source("src/main/Main.java", Language::Java)])
    );
}

#[test]
fn discovery_falls_back_to_the_project_root() {
    let project = || FsNode::Dir {
        name: ".".to_string(),
        path: ".".to_string(),
        entries: vec![
            file(".", "Main.java"),
            file(".", "Cup.toml"),
            dir(".", "app", vec![file("./app", "Util.kt")]),
        ],
    };
    let expected = Ok(vec![
        source("./Main.java", Language::Java),
        source("./app/Util.kt", Language::Kotlin),
    ]);
    let without_sources = root(vec![dir("src/main", "java", vec![file("src/main/java", "notes.txt")])]);
    assert_eq!(discover_source_files(&Some(without_sources), &Some(project())), expected);
    assert_eq!(discover_source_files(&None, &Some(project())), expected);
}

#[test]
fn discovery_of_a_project_without_sources_is_empty() {
    let tree = root(vec![file("src/main", "README.md"), dir("src/main", "java", vec![])]);
    let project = dir("", ".", vec![file(".", "Cup.toml")]);
    assert_eq!(discover_source_files(&Some(tree), &Some(project)), Ok(vec![]));
    assert_eq!(discover_source_files(&Some(root(vec![])), &None), Ok(vec![]));
}

#[test]
fn discovery_fails_where_the_root_is_not_a_directory() {
    assert_eq!(
        discover_source_files(&Some(file("src", "main")), &None),
        Err(BuildError::Discovery { path: "src/main".to_string() })
    );
}

#[test]
fn discovery_fails_on_any_unreadable_directory_beneath_the_root() {
    let tree = root(vec![
        dir("src/main", "java", vec![file("src/main/java", "Main.java")]),
        FsNode::Unreadable { name: "secret".to_string(), path: "src/main/secret".to_string() },
    ]);
    assert_eq!(
        discover_source_files(&Some(tree), &None),
        Err(BuildError::Discovery { path: "src/main/secret".to_string() })
    );
    let blocked = FsNode::Unreadable { name: "main".to_string(), path: "src/main".to_string() };
    assert_eq!(
        discover_source_files(&Some(blocked), &Some(dir("", ".", vec![file(".", "Main.java")]))),
        Err(BuildError::Discovery { path: "src/main".to_string() })
    );
}

#[test]
fn discovery_fails_where_the_fallback_is_blocked() {
    let project = dir(
        "",
        ".",
        vec![
            file(".", "Main.java"),
            FsNode::Unreadable { name: "vault".to_string(), path: "./vault".to_string() },
        ],
    );
    assert_eq!(
        discover_source_files(&Some(root(vec![])), &Some(project)),
        Err(BuildError::Discovery { path: "./vault".to_string() })
    );
}

#[test]
fn listing_of_one_directory_is_its_walk() {
    assert_eq!(sources_beneath(&None), Ok(vec![]));
    assert_eq!(
        sources_beneath(&Some(root(vec![file("src/main", "A.kt"), file("src/main", "B.txt")]))),
        Ok(vec![source("src/main/A.kt", Language::Kotlin)])
    );
    assert_eq!(
        sources_beneath(&Some(file("src", "main"))),
        Err(BuildError::Discovery { path: "src/main".to_string() })
    );
}

#[test]
fn discover_java_files_is_the_same_discovery() {
    let make = || {
        root(vec![
            dir("src/main", "java", vec![file("src/main/java", "Main.java")]),
            dir("src/main", "kotlin", vec![file("src/main/kotlin", "Util.kt")]),
        ])
    };
    assert_eq!(discover_java_files(&Some(make()), &None), discover_source_files(&Some(make()), &None));
    assert_eq!(discover_java_files(&Some(make()), &None).map(|files| files.len()), Ok(2));
}

#[test]
fn kotlin_is_found_only_where_it_is() {
    let java_only = root(vec![dir("src/main", "java", vec![file("src/main/java", "Main.java")])]);
    let mixed = root(vec![
        dir("src/main", "java", vec![file("src/main/java", "Main.java")]),
        dir("src/main", "kotlin", vec![file("src/main/kotlin", "Util.kt")]),
    ]);
    assert_eq!(check_for_kotlin_files(&Some(java_only), &None), Ok(false));
    assert_eq!(check_for_kotlin_files(&Some(mixed), &None), Ok(true));
    assert_eq!(check_for_kotlin_files(&None, &None), Ok(false));
    assert_eq!(
        check_for_kotlin_files(&None, &Some(dir("", ".", vec![file(".", "Main.kt")]))),
        Ok(true)
    );
    assert_eq!(
        check_for_kotlin_files(&Some(file("src", "main")), &None),
        Err(BuildError::Discovery { path: "src/main".to_string() })
    );
}

#[test]
fn languages_are_told_apart() {
    let files = vec![
        source("A.java", Language::Java),
        source("B.kt", Language::Kotlin),
        source("C.java", Language::Java),
    ];
    assert!(has_language(&files, Language::Java));
    assert!(has_language(&files, Language::Kotlin));
    assert!(!has_language(&files[..1].to_vec(), Language::Kotlin));
    assert!(!has_language(&Vec::new(), Language::Java));
    assert_eq!(source_paths(&files, Language::Java), vec!["A.java".to_string(), "C.java".to_string()]);
    assert_eq!(source_paths(&files, Language::Kotlin), vec!["B.kt".to_string()]);
    assert_eq!(source_paths(&Vec::new(), Language::Kotlin), Vec::<String>::new());
}
