//! The classpath: the archives of the local library directory, the Kotlin
//! runtime where the host has one, and the output directory.
//!
//! No classpath at all is `None`, never an empty text: a caller leaves the
//! flag out then.

use crate::text::{join, joined, lemma_texts_push, texts};
use vstd::prelude::*;
use vstd::string::*;

verus! {

/// One entry of the local library directory.
#[derive(Clone, Debug, PartialEq, Eq)]
pub struct LibraryEntry {
    pub path: String,
    /// The part of the entry's name behind its last dot, where it has one.
    pub extension: Option<String>,
}

/// What stands between two entries of a classpath on this kind of host.
pub open spec fn separator(windows: bool) -> Seq<char> {
    if windows {
        ";"@
    } else {
        ":"@
    }
}

pub fn path_separator(windows: bool) -> (text: &'static str)
    ensures
        text@ == separator(windows),
{
    if windows {
        ";"
    } else {
        ":"
    }
}

/// An entry is an archive where its extension is `jar`.
pub open spec fn is_archive(entry: LibraryEntry) -> bool {
    entry.extension matches Some(text) && text@ == "jar"@
}

/// The paths of the archives among `entries`, in listing order.
pub open spec fn archives(entries: Seq<LibraryEntry>) -> Seq<Seq<char>> {
    entries.filter(|entry: LibraryEntry| is_archive(entry)).map_values(
        |entry: LibraryEntry| entry.path@,
    )
}

fn archive_paths(entries: &Vec<LibraryEntry>) -> (paths: Vec<String>)
    ensures
        texts(paths@) == archives(entries@),
{
    let mut paths: Vec<String> = Vec::new();
    let wanted = String::from_str("jar");
    let mut i: usize = 0;
    assert(entries@.take(0) =~= Seq::empty());
    assert(texts(paths@) =~= archives(entries@.take(0)));
    while i < entries.len()
        invariant
            i <= entries.len(),
            wanted@ == "jar"@,
            texts(paths@) == archives(entries@.take(i as int)),
        decreases entries.len() - i,
    {
        let entry = &entries[i];
        let ghost before = entries@.take(i as int);
        proof {
            assert(entries@.take(i + 1) =~= before.push(*entry));
            Seq::lemma_filter_push(before, *entry, |entry: LibraryEntry| is_archive(entry));
        }
        let keep = match &entry.extension {
            Some(text) => *text == wanted,
            None => false,
        };
        if keep {
            proof {
                lemma_texts_push(paths@, entry.path);
                Seq::lemma_push_map_commute(
                    before.filter(|entry: LibraryEntry| is_archive(entry)),
                    |entry: LibraryEntry| entry.path@,
                    *entry,
                );
            }
            paths.push(entry.path.clone());
        }
        i += 1;
    }
    assert(entries@.take(entries@.len() as int) =~= entries@);
    paths
}

/// Where a Kotlin runtime is looked for when a classpath is resolved.
pub open spec fn runtime_candidates() -> Seq<Seq<char>> {
    seq![
        "/usr/share/kotlin/lib/kotlin-stdlib.jar"@,
        "/opt/kotlin/lib/kotlin-stdlib.jar"@,
        "~/.kotlinc/lib/kotlin-stdlib.jar"@,
        "/usr/local/share/kotlin/lib/kotlin-stdlib.jar"@,
    ]
}

/// The places of `runtime_candidates`, in the order in which they are tried.
pub fn kotlin_runtime_paths() -> (paths: Vec<String>)
    ensures
        texts(paths@) == runtime_candidates(),
{
    let mut paths: Vec<String> = Vec::new();
    paths.push(String::from_str("/usr/share/kotlin/lib/kotlin-stdlib.jar"));
    paths.push(String::from_str("/opt/kotlin/lib/kotlin-stdlib.jar"));
    paths.push(String::from_str("~/.kotlinc/lib/kotlin-stdlib.jar"));
    paths.push(String::from_str("/usr/local/share/kotlin/lib/kotlin-stdlib.jar"));
    assert(texts(paths@) =~= runtime_candidates());
    paths
}

/// Where a Kotlin runtime is looked for before a launch, as written: a
/// leading `~` stands for the user's home directory.
pub open spec fn launch_candidates() -> Seq<Seq<char>> {
    seq![
        "/usr/share/kotlin/lib/kotlin-stdlib.jar"@,
        "/opt/kotlin/lib/kotlin-stdlib.jar"@,
        "~/.kotlinc/lib/kotlin-stdlib.jar"@,
        "/usr/local/share/kotlin/lib/kotlin-stdlib.jar"@,
        "C:\\Program Files\\Kotlin\\lib\\kotlin-stdlib.jar"@,
        "C:\\kotlin\\lib\\kotlin-stdlib.jar"@,
    ]
}

fn launch_paths() -> (paths: Vec<String>)
    ensures
        texts(paths@) == launch_candidates(),
{
    let mut paths: Vec<String> = Vec::new();
    paths.push(String::from_str("/usr/share/kotlin/lib/kotlin-stdlib.jar"));
    paths.push(String::from_str("/opt/kotlin/lib/kotlin-stdlib.jar"));
    paths.push(String::from_str("~/.kotlinc/lib/kotlin-stdlib.jar"));
    paths.push(String::from_str("/usr/local/share/kotlin/lib/kotlin-stdlib.jar"));
    paths.push(String::from_str("C:\\Program Files\\Kotlin\\lib\\kotlin-stdlib.jar"));
    paths.push(String::from_str("C:\\kotlin\\lib\\kotlin-stdlib.jar"));
    assert(texts(paths@) =~= launch_candidates());
    paths
}

/// `path` with `home` written in place of every `~`.
pub open spec fn with_home(path: Seq<char>, home: Seq<char>) -> Seq<char>
    decreases path.len(),
{
    if path.len() == 0 {
        Seq::empty()
    } else if path.last() == '~' {
        with_home(path.drop_last(), home) + home
    } else {
        with_home(path.drop_last(), home).push(path.last())
    }
}

/// A candidate as it is probed: one that begins with `~` has the home
/// directory written in, where the home directory is known.
pub open spec fn expanded(path: Seq<char>, home: Option<String>) -> Seq<char> {
    match home {
        Some(directory) => if path.len() > 0 && path[0] == '~' {
            with_home(path, directory@)
        } else {
            path
        },
        None => path,
    }
}

pub fn expand_home(path: &str, home: &Option<String>) -> (probed: String)
    ensures
        probed@ == expanded(path@, *home),
{
    let length = path.unicode_len();
    match home {
        Some(directory) => {
            if length > 0 && path.get_char(0) == '~' {
                let mut probed = String::new();
                let mut i: usize = 0;
                assert(path@.take(0) =~= Seq::empty());
                while i < length
                    invariant
                        i <= length,
                        length == path@.len(),
                        probed@ == with_home(path@.take(i as int), directory@),
                    decreases length - i,
                {
                    assert(path@.take(i + 1).drop_last() =~= path@.take(i as int));
                    if path.get_char(i) == '~' {
                        probed.append(directory.as_str());
                    } else {
                        let ghost before = probed@;
                        probed.append(path.substring_char(i, i + 1));
                        assert(probed@ =~= before.push(path@[i as int]));
                    }
                    i += 1;
                }
                assert(path@.take(length as int) =~= path@);
                probed
            } else {
                String::from_str(path)
            }
        },
        None => String::from_str(path),
    }
}

/// The candidates of a launch as they are probed.
pub open spec fn launch_probes(home: Option<String>) -> Seq<Seq<char>> {
    launch_candidates().map_values(|path: Seq<char>| expanded(path, home))
}

/// The places probed for a Kotlin runtime before a launch, in order.
pub fn kotlin_launch_paths(home: &Option<String>) -> (paths: Vec<String>)
    ensures
        texts(paths@) == launch_probes(*home),
{
    let written = launch_paths();
    let mut paths: Vec<String> = Vec::new();
    let mut i: usize = 0;
    while i < written.len()
        invariant
            i <= written.len(),
            texts(written@) == launch_candidates(),
            paths@.len() == i,
            forall|j: int| 0 <= j < i ==> (#[trigger] paths@[j])@ == expanded(written@[j]@, *home),
        decreases written.len() - i,
    {
        paths.push(expand_home(written[i].as_str(), home));
        i += 1;
    }
    assert(texts(paths@) =~= launch_probes(*home)) by {
        assert forall|j: int| 0 <= j < paths@.len() implies texts(paths@)[j] == launch_probes(
            *home,
        )[j] by {
            assert(texts(written@)[j] == written@[j]@);
        }
    }
    paths
}

/// The first candidate at or behind `from` that the host was found to hold.
/// A candidate without an answer counts as absent.
pub open spec fn first_present(candidates: Seq<Seq<char>>, present: Seq<bool>, from: int) -> Option<
    Seq<char>,
>
    decreases candidates.len() - from,
{
    if from < 0 || from >= candidates.len() {
        None
    } else if from < present.len() && present[from] {
        Some(candidates[from])
    } else {
        first_present(candidates, present, from + 1)
    }
}

/// Picks the first of `candidates` that is marked present.
pub fn pick_first_present(candidates: &Vec<String>, present: &Vec<bool>) -> (picked: Option<String>)
    ensures
        match picked {
            Some(path) => first_present(texts(candidates@), present@, 0) == Some(path@),
            None => first_present(texts(candidates@), present@, 0) is None,
        },
{
    let mut i: usize = 0;
    while i < candidates.len()
        invariant
            i <= candidates.len(),
            first_present(texts(candidates@), present@, 0) == first_present(
                texts(candidates@),
                present@,
                i as int,
            ),
        decreases candidates.len() - i,
    {
        if i < present.len() && present[i] {
            return Some(candidates[i].clone());
        }
        i += 1;
    }
    None
}

/// A sequence of no entry or one.
pub open spec fn optional(entry: Option<Seq<char>>) -> Seq<Seq<char>> {
    match entry {
        Some(text) => seq![text],
        None => Seq::empty(),
    }
}

/// The entries joined for this kind of host, or `None` where there are none.
pub open spec fn classpath_of(entries: Seq<Seq<char>>, windows: bool) -> Option<Seq<char>> {
    if entries.len() == 0 {
        None
    } else {
        Some(joined(entries, separator(windows)))
    }
}

/// The classpath that compilation uses: every archive of the library
/// directory in listing order, then the first Kotlin runtime that is present.
pub open spec fn resolved_classpath(
    libraries: Seq<LibraryEntry>,
    present: Seq<bool>,
    windows: bool,
) -> Option<Seq<char>> {
    classpath_of(
        archives(libraries) + optional(first_present(runtime_candidates(), present, 0)),
        windows,
    )
}

/// Resolves the classpath from the listing of the library directory and
/// from `present`, which says of each place of `kotlin_runtime_paths`, in
/// order, whether a file stands there.
pub fn build_classpath(libraries: &Vec<LibraryEntry>, present: &Vec<bool>, windows: bool) -> (classpath:
    Option<String>)
    ensures
        match classpath {
            Some(text) => resolved_classpath(libraries@, present@, windows) == Some(text@),
            None => resolved_classpath(libraries@, present@, windows) is None,
        },
{
    let mut entries = archive_paths(libraries);
    let candidates = kotlin_runtime_paths();
    match pick_first_present(&candidates, present) {
        Some(runtime) => {
            proof {
                lemma_texts_push(entries@, runtime);
            }
            entries.push(runtime);
        },
        None => {},
    }
    assert(texts(entries@) =~= archives(libraries@) + optional(
        first_present(runtime_candidates(), present@, 0),
    ));
    if entries.len() > 0 {
        Some(join(&entries, path_separator(windows)))
    } else {
        None
    }
}

/// Adds the Kotlin runtime to the parts of a launch classpath: the first
/// place of `kotlin_launch_paths` that `present` marks. Where none is
/// marked the parts stay as they are: the Kotlin compiler is never asked
/// where its runtime stands, so a launch starts no process but the runtime
/// itself.
pub fn add_kotlin_runtime_to_classpath(
    classpath_parts: &mut Vec<String>,
    home: &Option<String>,
    present: &Vec<bool>,
)
    ensures
        texts(final(classpath_parts)@) == texts(old(classpath_parts)@) + optional(
            first_present(launch_probes(*home), present@, 0),
        ),
{
    let candidates = kotlin_launch_paths(home);
    match pick_first_present(&candidates, present) {
        Some(runtime) => {
            proof {
                lemma_texts_push(classpath_parts@, runtime);
            }
            classpath_parts.push(runtime);
        },
        None => {},
    }
    assert(texts(classpath_parts@) =~= texts(old(classpath_parts)@) + optional(
        first_present(launch_probes(*home), present@, 0),
    ));
}

/// The answers behind the first `count`; none where there are not so many.
pub open spec fn behind(present: Seq<bool>, count: int) -> Seq<bool> {
    if 0 <= count <= present.len() {
        present.skip(count)
    } else {
        Seq::empty()
    }
}

pub fn answers_behind(present: &Vec<bool>, count: usize) -> (rest: Vec<bool>)
    ensures
        rest@ == behind(present@, count as int),
{
    let mut rest: Vec<bool> = Vec::new();
    if count <= present.len() {
        let mut i: usize = count;
        while i < present.len()
            invariant
                count <= i <= present.len(),
                rest@ == present@.subrange(count as int, i as int),
            decreases present.len() - i,
        {
            rest.push(present[i]);
            assert(rest@ =~= present@.subrange(count as int, i + 1));
            i += 1;
        }
        assert(rest@ =~= present@.skip(count as int));
    }
    rest
}

/// The classpath of a launch: the output directory, then the resolved
/// library classpath where there is one, then the Kotlin runtime where the
/// project holds Kotlin and the host has a runtime.
pub open spec fn launch_classpath(
    output_dir: Seq<char>,
    library: Option<Seq<char>>,
    kotlin: bool,
    home: Option<String>,
    present: Seq<bool>,
    windows: bool,
) -> Seq<char> {
    joined(
        seq![output_dir] + optional(library) + (if kotlin {
            optional(first_present(launch_probes(home), present, 0))
        } else {
            Seq::empty()
        }),
        separator(windows),
    )
}

/// Assembles the classpath of a launch. `present` says of each place of
/// `kotlin_launch_paths`, in order, whether a file stands there.
pub fn runtime_classpath(
    output_dir: &str,
    library: &Option<String>,
    kotlin: bool,
    home: &Option<String>,
    present: &Vec<bool>,
    windows: bool,
) -> (classpath: String)
    ensures
        classpath@ == launch_classpath(
            output_dir@,
            match *library {
                Some(text) => Some(text@),
                None => None,
            },
            kotlin,
            *home,
            present@,
            windows,
        ),
{
    let mut parts: Vec<String> = Vec::new();
    parts.push(String::from_str(output_dir));
    match library {
        Some(text) => {
            parts.push(text.clone());
        },
        None => {},
    }
    let ghost fixed = texts(parts@);
    assert(fixed =~= seq![output_dir@] + optional(
        match *library {
            Some(text) => Some(text@),
            None => None,
        },
    ));
    if kotlin {
        add_kotlin_runtime_to_classpath(&mut parts, home, present);
    } else {
        assert(texts(parts@) =~= fixed + Seq::empty());
    }
    join(&parts, path_separator(windows))
}

} // verus!
