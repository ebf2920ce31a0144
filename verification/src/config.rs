//! The project's configuration as the orchestrator reads it.

use vstd::prelude::*;
use vstd::string::*;

verus! {

/// What the configuration says of the project itself.
#[derive(Clone, Debug, PartialEq, Eq)]
pub struct ProjectConfig {
    pub name: String,
    pub version: String,
    /// The fully qualified class to launch; without one a run only builds.
    pub main_class: Option<String>,
    pub project_lang: Option<String>,
}

/// The `[build]` table as written: every entry may be left out.
#[derive(Clone, Debug, PartialEq, Eq)]
pub struct BuildConfig {
    pub source_dir: Option<String>,
    pub output_dir: Option<String>,
    pub test_dir: Option<String>,
    pub java_version: Option<String>,
    pub doc_dir: Option<String>,
}

/// The whole configuration file.
#[derive(Clone, Debug, PartialEq, Eq)]
pub struct CupConfig {
    pub project: ProjectConfig,
    pub build: Option<BuildConfig>,
}

/// The build table with every default applied.
#[derive(Clone, Debug, PartialEq, Eq)]
pub struct BuildSettings {
    pub source_dir: String,
    pub output_dir: String,
    pub test_dir: String,
    pub java_version: String,
    pub doc_dir: String,
}

/// `BuildSettings` with its texts as sequences of characters.
pub struct BuildSettingsView {
    pub source_dir: Seq<char>,
    pub output_dir: Seq<char>,
    pub test_dir: Seq<char>,
    pub java_version: Seq<char>,
    pub doc_dir: Seq<char>,
}

impl View for BuildSettings {
    type V = BuildSettingsView;

    open spec fn view(&self) -> BuildSettingsView {
        BuildSettingsView {
            source_dir: self.source_dir@,
            output_dir: self.output_dir@,
            test_dir: self.test_dir@,
            java_version: self.java_version@,
            doc_dir: self.doc_dir@,
        }
    }
}

/// The text of an entry, or `fallback` where the entry was left out.
pub open spec fn entry_or(entry: Option<String>, fallback: Seq<char>) -> Seq<char> {
    match entry {
        Some(text) => text@,
        None => fallback,
    }
}

fn text_or(entry: &Option<String>, fallback: &str) -> (text: String)
    ensures
        text@ == entry_or(*entry, fallback@),
{
    match entry {
        Some(text) => text.clone(),
        None => String::from_str(fallback),
    }
}

impl BuildConfig {
    /// The settings that hold where the table leaves an entry out.
    pub open spec fn defaults() -> BuildSettingsView {
        BuildSettingsView {
            source_dir: "src/main"@,
            output_dir: "build/classes"@,
            test_dir: "src/test"@,
            java_version: "11"@,
            doc_dir: "doc"@,
        }
    }

    /// What `settings` returns: each entry as written, else its default.
    pub open spec fn settings_spec(self) -> BuildSettingsView {
        BuildSettingsView {
            source_dir: entry_or(self.source_dir, Self::defaults().source_dir),
            output_dir: entry_or(self.output_dir, Self::defaults().output_dir),
            test_dir: entry_or(self.test_dir, Self::defaults().test_dir),
            java_version: entry_or(self.java_version, Self::defaults().java_version),
            doc_dir: entry_or(self.doc_dir, Self::defaults().doc_dir),
        }
    }

    /// Applies the defaults, entry by entry.
    pub fn settings(&self) -> (settings: BuildSettings)
        ensures
            settings@ == self.settings_spec(),
    {
        BuildSettings {
            source_dir: text_or(&self.source_dir, "src/main"),
            output_dir: text_or(&self.output_dir, "build/classes"),
            test_dir: text_or(&self.test_dir, "src/test"),
            java_version: text_or(&self.java_version, "11"),
            doc_dir: text_or(&self.doc_dir, "doc"),
        }
    }
}

impl Default for BuildConfig {
    /// A table that names every default outright.
    fn default() -> (config: BuildConfig)
        ensures
            config.source_dir is Some,
            config.output_dir is Some,
            config.test_dir is Some,
            config.java_version is Some,
            config.doc_dir is Some,
            config.settings_spec() == BuildConfig::defaults(),
    {
        BuildConfig {
            source_dir: Some(String::from_str("src/main")),
            output_dir: Some(String::from_str("build/classes")),
            test_dir: Some(String::from_str("src/test")),
            java_version: Some(String::from_str("11")),
            doc_dir: Some(String::from_str("doc")),
        }
    }
}

impl CupConfig {
    /// The settings of the build table, or the defaults where the file has
    /// no such table.
    pub open spec fn settings_spec(self) -> BuildSettingsView {
        match self.build {
            Some(build) => build.settings_spec(),
            None => BuildConfig::defaults(),
        }
    }

    pub fn settings(&self) -> (settings: BuildSettings)
        ensures
            settings@ == self.settings_spec(),
    {
        match &self.build {
            Some(build) => build.settings(),
            None => BuildConfig::default().settings(),
        }
    }
}

} // verus!
