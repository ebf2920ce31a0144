//! Source discovery: which files under the source root are Java or Kotlin.
//!
//! The caller lists a directory and hands the listing over as a tree of
//! `FsNode`s. Everything here is decided on such trees.

use crate::error::{BuildError, BuildErrorView};
use crate::text::{lemma_texts_push, texts};
use vstd::prelude::*;
use vstd::string::*;

verus! {

/// The two languages that the orchestrator compiles.
#[derive(Clone, Copy, Debug, PartialEq, Eq, Structural)]
pub enum Language {
    Java,
    Kotlin,
}

/// A file that discovery kept, with the language its extension names.
#[derive(Clone, Debug, PartialEq, Eq)]
pub struct SourceFile {
    pub path: String,
    pub language: Language,
}

/// A `SourceFile` with its path as a sequence of characters.
pub struct SourceFileView {
    pub path: Seq<char>,
    pub language: Language,
}

impl View for SourceFile {
    type V = SourceFileView;

    open spec fn view(&self) -> SourceFileView {
        SourceFileView { path: self.path@, language: self.language }
    }
}

/// The views of a sequence of source files, in the same order.
pub open spec fn views(files: Seq<SourceFile>) -> Seq<SourceFileView> {
    files.map_values(|file: SourceFile| file@)
}

/// One entry of a listed directory tree.
#[derive(Debug)]
pub enum FsNode {
    /// Anything that is not a directory. `extension` is the part of the file
    /// name behind its last dot, where it has one.
    File { name: String, path: String, extension: Option<String> },
    /// A directory with its entries in the order in which they were listed.
    Dir { name: String, path: String, entries: Vec<FsNode> },
    /// A directory that exists but could not be listed.
    Unreadable { name: String, path: String },
}

impl FsNode {
    /// The entry's name within its directory.
    pub open spec fn name_spec(self) -> Seq<char> {
        match self {
            FsNode::File { name, .. } => name@,
            FsNode::Dir { name, .. } => name@,
            FsNode::Unreadable { name, .. } => name@,
        }
    }

    /// The path under which the entry was reached.
    pub open spec fn path_spec(self) -> Seq<char> {
        match self {
            FsNode::File { path, .. } => path@,
            FsNode::Dir { path, .. } => path@,
            FsNode::Unreadable { path, .. } => path@,
        }
    }

    pub fn name(&self) -> (name: &String)
        ensures
            name@ == self.name_spec(),
    {
        match self {
            FsNode::File { name, .. } => name,
            FsNode::Dir { name, .. } => name,
            FsNode::Unreadable { name, .. } => name,
        }
    }

    pub fn path(&self) -> (path: &String)
        ensures
            path@ == self.path_spec(),
    {
        match self {
            FsNode::File { path, .. } => path,
            FsNode::Dir { path, .. } => path,
            FsNode::Unreadable { path, .. } => path,
        }
    }
}

/// The language that an extension names: `java` is Java, `kt` is Kotlin,
/// and nothing else is a source file.
pub open spec fn language_of(extension: Option<String>) -> Option<Language> {
    match extension {
        Some(text) => if text@ == "java"@ {
            Some(Language::Java)
        } else if text@ == "kt"@ {
            Some(Language::Kotlin)
        } else {
            None
        },
        None => None,
    }
}

pub fn classify(extension: &Option<String>) -> (language: Option<Language>)
    ensures
        language == language_of(*extension),
{
    match extension {
        None => None,
        Some(text) => {
            if *text == String::from_str("java") {
                Some(Language::Java)
            } else if *text == String::from_str("kt") {
                Some(Language::Kotlin)
            } else {
                None
            }
        },
    }
}

/// What a file contributes to discovery: itself where its extension names a
/// language, nothing otherwise.
pub open spec fn recognised(path: Seq<char>, extension: Option<String>) -> Seq<SourceFileView> {
    match language_of(extension) {
        Some(language) => seq![SourceFileView { path, language }],
        None => Seq::empty(),
    }
}

/// The source files beneath `dir`, depth first in listing order; or the path
/// of the first directory met that could not be listed. Something that is
/// not a directory cannot be listed either.
pub open spec fn walk(dir: FsNode) -> Result<Seq<SourceFileView>, Seq<char>>
    decreases dir,
{
    match dir {
        FsNode::Dir { entries, .. } => walk_entries(entries@, entries@.len() as int),
        FsNode::File { path, .. } => Err(path@),
        FsNode::Unreadable { path, .. } => Err(path@),
    }
}

/// `walk` over the first `upto` entries of one directory.
pub open spec fn walk_entries(entries: Seq<FsNode>, upto: int) -> Result<
    Seq<SourceFileView>,
    Seq<char>,
>
    decreases entries, upto,
{
    if upto <= 0 || upto > entries.len() {
        Ok(Seq::empty())
    } else {
        match walk_entries(entries, upto - 1) {
            Err(blocked) => Err(blocked),
            Ok(before) => match entries[upto - 1] {
                FsNode::File { path, extension, .. } => Ok(before + recognised(path@, extension)),
                inner => match walk(inner) {
                    Err(blocked) => Err(blocked),
                    Ok(found) => Ok(before + found),
                },
            },
        }
    }
}

/// Once a prefix of a directory is blocked, every longer prefix is blocked
/// at the same place.
pub proof fn lemma_blocked_stays_blocked(entries: Seq<FsNode>, upto: int, later: int)
    requires
        walk_entries(entries, upto) is Err,
        upto <= later <= entries.len(),
    ensures
        walk_entries(entries, later) == walk_entries(entries, upto),
    decreases later - upto,
{
    if upto < later {
        lemma_blocked_stays_blocked(entries, upto, later - 1);
    }
}

/// How `collect_source_files` leaves its accumulator: extended by what the
/// walk found, or untouched where the walk was blocked.
pub open spec fn collected(
    dir: FsNode,
    before: Seq<SourceFile>,
    after: Seq<SourceFile>,
    outcome: Result<(), BuildError>,
) -> bool {
    match walk(dir) {
        Ok(found) => outcome is Ok && views(after) == views(before) + found,
        Err(blocked) => {
            &&& outcome matches Err(error)
            &&& error@ == (BuildErrorView::Discovery { path: blocked })
            &&& views(after) == views(before)
        },
    }
}

/// Appends to `acc` every source file beneath the directory `dir`.
///
/// Fails on the first directory that cannot be listed, and then hands `acc`
/// back as it was: nothing of a blocked walk is kept.
pub fn collect_source_files(dir: &FsNode, acc: &mut Vec<SourceFile>) -> (outcome: Result<
    (),
    BuildError,
>)
    ensures
        collected(*dir, old(acc)@, final(acc)@, outcome),
    decreases dir,
{
    let start = acc.len();
    match dir {
        FsNode::Dir { entries, .. } => {
            let mut i: usize = 0;
            while i < entries.len()
                invariant
                    i <= entries.len(),
                    decreases_to!(dir => entries),
                    *dir is Dir,
                    dir->entries == *entries,
                    start == old(acc)@.len(),
                    walk_entries(entries@, i as int) matches Ok(found) && views(acc@) == views(
                        old(acc)@,
                    ) + found,
                decreases entries.len() - i,
            {
                let ghost before = acc@;
                match &entries[i] {
                    FsNode::File { path, extension, .. } => {
                        match classify(extension) {
                            Some(language) => {
                                acc.push(SourceFile { path: path.clone(), language });
                                assert(views(acc@) == views(before) + recognised(
                                    path@,
                                    *extension,
                                ));
                            },
                            None => {
                                assert(views(acc@) == views(before) + recognised(
                                    path@,
                                    *extension,
                                ));
                            },
                        }
                    },
                    inner => {
                        proof {
                            assert(decreases_to!(entries => entries[i as int]));
                        }
                        match collect_source_files(inner, acc) {
                            Ok(()) => {},
                            Err(error) => {
                                let ghost partial = acc@;
                                proof {
                                    lemma_blocked_stays_blocked(
                                        entries@,
                                        i + 1,
                                        entries@.len() as int,
                                    );
                                }
                                assert(views(partial).len() == partial.len());
                                assert(views(old(acc)@).len() == start);
                                acc.truncate(start);
                                assert(views(acc@) =~= views(partial).subrange(0, start as int));
                                assert(views(acc@) =~= views(old(acc)@));
                                return Err(error);
                            },
                        }
                    },
                }
                i += 1;
            }
            Ok(())
        },
        FsNode::File { path, .. } => Err(BuildError::Discovery { path: path.clone() }),
        FsNode::Unreadable { path, .. } => Err(BuildError::Discovery { path: path.clone() }),
    }
}

/// The same walk under its older name.
pub fn collect_java_files(dir: &FsNode, acc: &mut Vec<SourceFile>) -> (outcome: Result<
    (),
    BuildError,
>)
    ensures
        collected(*dir, old(acc)@, final(acc)@, outcome),
{
    collect_source_files(dir, acc)
}

/// The walk of a directory that may be absent: an absent one holds nothing.
pub open spec fn walk_if_present(dir: Option<FsNode>) -> Result<Seq<SourceFileView>, Seq<char>> {
    match dir {
        Some(node) => walk(node),
        None => Ok(Seq::empty()),
    }
}

/// That `outcome` is the walk of `dir`: its files on success, and on
/// failure the directory that blocked it.
pub open spec fn is_walk_of(dir: Option<FsNode>, outcome: Result<Vec<SourceFile>, BuildError>) -> bool {
    match walk_if_present(dir) {
        Ok(found) => outcome matches Ok(files) && views(files@) == found,
        Err(blocked) => outcome matches Err(error) && error@ == (BuildErrorView::Discovery {
            path: blocked,
        }),
    }
}

/// Lists every source file beneath a directory that may be absent.
pub fn sources_beneath(dir: &Option<FsNode>) -> (outcome: Result<Vec<SourceFile>, BuildError>)
    ensures
        is_walk_of(*dir, outcome),
{
    let mut files: Vec<SourceFile> = Vec::new();
    assert(views(files@) =~= Seq::empty());
    match dir {
        None => Ok(files),
        Some(node) => {
            match collect_source_files(node, &mut files) {
                Ok(()) => {
                    assert(views(files@) =~= walk(*node)->Ok_0);
                    Ok(files)
                },
                Err(error) => Err(error),
            }
        },
    }
}

/// What discovery yields. `root` is the listing of the source root and
/// `project` that of the project root, `None` being a directory that does
/// not exist.
///
/// Discovery finds every source file beneath the source root. Where the
/// source root holds none, it finds every source file beneath the project
/// root instead. A directory that cannot be listed, anywhere beneath a root
/// that is walked, fails it.
pub open spec fn discovered(root: Option<FsNode>, project: Option<FsNode>) -> Result<
    Seq<SourceFileView>,
    Seq<char>,
> {
    match walk_if_present(root) {
        Err(blocked) => Err(blocked),
        Ok(found) => if found.len() > 0 {
            Ok(found)
        } else {
            walk_if_present(project)
        },
    }
}

/// That `outcome` is what discovery owes for the two listings.
pub open spec fn is_discovery_of(
    root: Option<FsNode>,
    project: Option<FsNode>,
    outcome: Result<Vec<SourceFile>, BuildError>,
) -> bool {
    match discovered(root, project) {
        Ok(found) => outcome matches Ok(files) && views(files@) == found,
        Err(blocked) => outcome matches Err(error) && error@ == (BuildErrorView::Discovery {
            path: blocked,
        }),
    }
}

/// Finds the project's source files in the listings of its source root and
/// of the project root.
///
/// A root that does not exist holds no file and is no error. The project
/// root is walked only where the source root holds no source file.
pub fn discover_source_files(root: &Option<FsNode>, project: &Option<FsNode>) -> (outcome: Result<
    Vec<SourceFile>,
    BuildError,
>)
    ensures
        is_discovery_of(*root, *project, outcome),
{
    match sources_beneath(root) {
        Err(error) => Err(error),
        Ok(files) => {
            if files.len() > 0 {
                Ok(files)
            } else {
                sources_beneath(project)
            }
        },
    }
}

/// The same discovery under its older name.
pub fn discover_java_files(root: &Option<FsNode>, project: &Option<FsNode>) -> (outcome: Result<
    Vec<SourceFile>,
    BuildError,
>)
    ensures
        is_discovery_of(*root, *project, outcome),
{
    discover_source_files(root, project)
}

/// Whether a file of the given language is among `files`.
pub open spec fn holds_language(files: Seq<SourceFileView>, language: Language) -> bool {
    exists|i: int| 0 <= i < files.len() && (#[trigger] files[i]).language == language
}

pub fn has_language(files: &Vec<SourceFile>, language: Language) -> (found: bool)
    ensures
        found == holds_language(views(files@), language),
{
    let mut i: usize = 0;
    while i < files.len()
        invariant
            i <= files.len(),
            forall|j: int| 0 <= j < i ==> (#[trigger] views(files@)[j]).language != language,
        decreases files.len() - i,
    {
        if files[i].language == language {
            assert(views(files@)[i as int].language == language);
            return true;
        }
        i += 1;
    }
    false
}

/// Whether the project holds Kotlin at all, by a discovery of its own.
pub fn check_for_kotlin_files(root: &Option<FsNode>, project: &Option<FsNode>) -> (outcome: Result<
    bool,
    BuildError,
>)
    ensures
        match discovered(*root, *project) {
            Ok(found) => outcome == Ok::<bool, BuildError>(
                holds_language(found, Language::Kotlin),
            ),
            Err(blocked) => outcome matches Err(error) && error@ == (BuildErrorView::Discovery {
                path: blocked,
            }),
        },
{
    match discover_source_files(root, project) {
        Ok(files) => Ok(has_language(&files, Language::Kotlin)),
        Err(error) => Err(error),
    }
}

/// The paths of the files of one language, in the order of discovery.
pub open spec fn paths_of(files: Seq<SourceFileView>, language: Language) -> Seq<Seq<char>> {
    files.filter(|file: SourceFileView| file.language == language).map_values(
        |file: SourceFileView| file.path,
    )
}

pub fn source_paths(files: &Vec<SourceFile>, language: Language) -> (paths: Vec<String>)
    ensures
        texts(paths@) == paths_of(views(files@), language),
{
    let mut paths: Vec<String> = Vec::new();
    let mut i: usize = 0;
    assert(views(files@).take(0) =~= Seq::empty());
    assert(texts(paths@) =~= paths_of(views(files@).take(0), language));
    while i < files.len()
        invariant
            i <= files.len(),
            texts(paths@) == paths_of(views(files@).take(i as int), language),
        decreases files.len() - i,
    {
        let file = &files[i];
        let ghost before = views(files@).take(i as int);
        proof {
            assert(views(files@).take(i + 1) =~= before.push(file@));
            Seq::lemma_filter_push(
                before,
                file@,
                |file: SourceFileView| file.language == language,
            );
        }
        if file.language == language {
            proof {
                lemma_texts_push(paths@, file.path);
                Seq::lemma_push_map_commute(
                    before.filter(|file: SourceFileView| file.language == language),
                    |file: SourceFileView| file.path,
                    file@,
                );
            }
            paths.push(file.path.clone());
        }
        i += 1;
    }
    assert(views(files@).take(files@.len() as int) =~= views(files@));
    paths
}

} // verus!
