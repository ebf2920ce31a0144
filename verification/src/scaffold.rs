//! The layout of a new project: which directories and files it starts with.
//!
//! Nothing is created here. A `Scaffold` lists what is to be created, in
//! order; the caller creates it.

use crate::error::Tool;
use crate::text::texts;
use crate::toolchain::{Invocation, InvocationView};
use vstd::prelude::*;
use vstd::string::*;

verus! {

/// A file of a new project. It is created only where no file stands yet.
#[derive(Clone, Debug, PartialEq, Eq)]
pub struct ScaffoldFile {
    pub path: String,
    pub contents: String,
}

/// What a new project starts with.
#[derive(Clone, Debug, PartialEq, Eq)]
pub struct Scaffold {
    /// The project's root directory.
    pub root: String,
    /// The directories to create, parents included, in this order.
    pub directories: Vec<String>,
    /// The files to create once the directories stand, in this order.
    pub files: Vec<ScaffoldFile>,
    /// What to run in the root directory at the end.
    pub init: Invocation,
}

/// A `Scaffold` with its texts as sequences of characters; a file is its
/// path and its contents.
pub struct ScaffoldView {
    pub root: Seq<char>,
    pub directories: Seq<Seq<char>>,
    pub files: Seq<(Seq<char>, Seq<char>)>,
    pub init: InvocationView,
}

impl View for Scaffold {
    type V = ScaffoldView;

    open spec fn view(&self) -> ScaffoldView {
        ScaffoldView {
            root: self.root@,
            directories: texts(self.directories@),
            files: self.files@.map_values(|file: ScaffoldFile| (file.path@, file.contents@)),
            init: self.init@,
        }
    }
}

/// The root of a project called `name`: under `location` where one is
/// given, else `name` itself.
pub open spec fn project_root(name: Seq<char>, location: Option<Seq<char>>) -> Seq<char> {
    match location {
        Some(parent) => parent + "/"@ + name,
        None => name,
    }
}

/// The directory that holds the sources of the project's language.
pub open spec fn language_dir(kotlin: bool) -> Seq<char> {
    if kotlin {
        "kotlin"@
    } else {
        "java"@
    }
}

/// The main source file's name.
pub open spec fn main_file(kotlin: bool) -> Seq<char> {
    if kotlin {
        "Main.kt"@
    } else {
        "Main.java"@
    }
}

/// The main source file's contents.
pub open spec fn main_source(kotlin: bool) -> Seq<char> {
    if kotlin {
        "package main\n\nfun main() {\n    println(\"Hello, World!\")\n}\n"@
    } else {
        "package main;\n\npublic class Main {\n    public static void main(String[] args) {\n        System.out.println(\"Hello, World!\");\n    }\n}\n"@
    }
}

/// The class that the new project launches.
pub open spec fn main_class_name(kotlin: bool) -> Seq<char> {
    if kotlin {
        "MainKt"@
    } else {
        "Main"@
    }
}

/// The configuration file of a new project called `name`.
pub open spec fn manifest(name: Seq<char>, kotlin: bool) -> Seq<char> {
    "[project]\nname = \""@ + name
        + "\"\nversion = \"0.1.0\"\nmain_class = \"main."@
        + main_class_name(kotlin)
        + "\"\n\n[build]\nsource_dir = \"src/main\"        # Optional: defaults to this\noutput_dir = \"build/classes\"    # Optional: defaults to this  \ntest_dir = \"src/test\"           # Optional: for future testing support\njava_version = \"11\"             # Optional: for future version checking\ndoc_dir = \"doc\"                 # Optional: defaults to this\n\n[dependencies]\n"@
}

/// The layout of a new project.
pub open spec fn layout(name: Seq<char>, location: Option<Seq<char>>, kotlin: bool) -> ScaffoldView {
    let root = project_root(name, location);
    ScaffoldView {
        root,
        directories: seq![
            root,
            root + "/lib/"@,
            root + "/build/"@,
            root + "/doc/"@,
            root + "/src/main/"@ + language_dir(kotlin),
            root + "/src/test/"@ + language_dir(kotlin),
        ],
        files: seq![
            (
                root + "/src/main/"@ + language_dir(kotlin) + "/"@ + main_file(kotlin),
                main_source(kotlin),
            ),
            (root + "/Cup.toml"@, manifest(name, kotlin)),
        ],
        init: InvocationView { tool: Tool::Git, args: seq!["init"@] },
    }
}

fn glue(first: &str, second: &str) -> (whole: String)
    ensures
        whole@ == first@ + second@,
{
    let mut whole = String::from_str(first);
    whole.append(second);
    whole
}

fn glue3(first: &str, second: &str, third: &str) -> (whole: String)
    ensures
        whole@ == first@ + second@ + third@,
{
    let mut whole = String::from_str(first);
    whole.append(second);
    whole.append(third);
    whole
}

fn manifest_text(name: &str, kotlin: bool) -> (text: String)
    ensures
        text@ == manifest(name@, kotlin),
{
    let mut text = String::from_str(
        "[project]\nname = \"",
    );
    text.append(name);
    text.append("\"\nversion = \"0.1.0\"\nmain_class = \"main.");
    text.append(if kotlin {
        "MainKt"
    } else {
        "Main"
    });
    text.append(
        "\"\n\n[build]\nsource_dir = \"src/main\"        # Optional: defaults to this\noutput_dir = \"build/classes\"    # Optional: defaults to this  \ntest_dir = \"src/test\"           # Optional: for future testing support\njava_version = \"11\"             # Optional: for future version checking\ndoc_dir = \"doc\"                 # Optional: defaults to this\n\n[dependencies]\n",
    );
    text
}

/// Lays out a new project called `project_name`, under `location` where one
/// is given, for Kotlin or for Java.
pub fn new_project(project_name: String, location: Option<String>, kotlin: bool) -> (scaffold:
    Scaffold)
    ensures
        scaffold@ == layout(
            project_name@,
            match location {
                Some(parent) => Some(parent@),
                None => None,
            },
            kotlin,
        ),
{
    let root = match &location {
        Some(parent) => glue3(parent.as_str(), "/", project_name.as_str()),
        None => project_name.clone(),
    };
    let language = if kotlin {
        "kotlin"
    } else {
        "java"
    };
    let mut directories: Vec<String> = Vec::new();
    directories.push(root.clone());
    directories.push(glue(root.as_str(), "/lib/"));
    directories.push(glue(root.as_str(), "/build/"));
    directories.push(glue(root.as_str(), "/doc/"));
    directories.push(glue3(root.as_str(), "/src/main/", language));
    directories.push(glue3(root.as_str(), "/src/test/", language));
    let mut main_path = glue3(root.as_str(), "/src/main/", language);
    main_path.append("/");
    main_path.append(if kotlin {
        "Main.kt"
    } else {
        "Main.java"
    });
    let mut files: Vec<ScaffoldFile> = Vec::new();
    files.push(
        ScaffoldFile {
            path: main_path,
            contents: String::from_str(
                if kotlin {
                    "package main\n\nfun main() {\n    println(\"Hello, World!\")\n}\n"
                } else {
                    "package main;\n\npublic class Main {\n    public static void main(String[] args) {\n        System.out.println(\"Hello, World!\");\n    }\n}\n"
                },
            ),
        },
    );
    files.push(
        ScaffoldFile {
            path: glue(root.as_str(), "/Cup.toml"),
            contents: manifest_text(project_name.as_str(), kotlin),
        },
    );
    let mut args: Vec<String> = Vec::new();
    args.push(String::from_str("init"));
    let scaffold = Scaffold { root, directories, files, init: Invocation { tool: Tool::Git, args } };
    proof {
        let owed = layout(
            project_name@,
            match location {
                Some(parent) => Some(parent@),
                None => None,
            },
            kotlin,
        );
        assert(scaffold@.directories =~= owed.directories);
        assert(scaffold@.files =~= owed.files);
        assert(scaffold@.init.args =~= owed.init.args);
    }
    scaffold
}

} // verus!
