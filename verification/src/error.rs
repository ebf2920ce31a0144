//! The ways a build or a launch can fail, and the text shown for each.

use vstd::prelude::*;
use vstd::string::*;

verus! {

/// An external program that the orchestrator starts.
#[derive(Clone, Copy, Debug, PartialEq, Eq, Structural)]
pub enum Tool {
    /// The Java compiler.
    Javac,
    /// The Kotlin compiler.
    Kotlinc,
    /// The Java runtime.
    Java,
    /// The Java documentation generator.
    Javadoc,
    /// The version control program.
    Git,
}

impl Tool {
    /// The name under which the program is looked up on the search path.
    pub open spec fn program_spec(self) -> Seq<char> {
        match self {
            Tool::Javac => "javac"@,
            Tool::Kotlinc => "kotlinc"@,
            Tool::Java => "java"@,
            Tool::Javadoc => "javadoc"@,
            Tool::Git => "git"@,
        }
    }

    pub fn program(self) -> (name: String)
        ensures
            name@ == self.program_spec(),
    {
        match self {
            Tool::Javac => String::from_str("javac"),
            Tool::Kotlinc => String::from_str("kotlinc"),
            Tool::Java => String::from_str("java"),
            Tool::Javadoc => String::from_str("javadoc"),
            Tool::Git => String::from_str("git"),
        }
    }

    /// What the user is told when the program cannot be started.
    pub open spec fn missing_spec(self) -> Seq<char> {
        match self {
            Tool::Javac => "Failed to execute javac. Make sure Java is installed and in PATH."@,
            Tool::Kotlinc => "Failed to execute kotlinc. Make sure Kotlin is installed and in PATH."@,
            Tool::Java => "Failed to execute java. Make sure Java runtime is installed."@,
            Tool::Javadoc => "Failed to execute javadoc. Make sure Java is installed and in PATH."@,
            Tool::Git => "Failed to execute git. Make sure Git is installed and in PATH."@,
        }
    }

    pub fn missing(self) -> (text: String)
        ensures
            text@ == self.missing_spec(),
    {
        match self {
            Tool::Javac => String::from_str(
                "Failed to execute javac. Make sure Java is installed and in PATH.",
            ),
            Tool::Kotlinc => String::from_str(
                "Failed to execute kotlinc. Make sure Kotlin is installed and in PATH.",
            ),
            Tool::Java => String::from_str(
                "Failed to execute java. Make sure Java runtime is installed.",
            ),
            Tool::Javadoc => String::from_str(
                "Failed to execute javadoc. Make sure Java is installed and in PATH.",
            ),
            Tool::Git => String::from_str(
                "Failed to execute git. Make sure Git is installed and in PATH.",
            ),
        }
    }

    /// The line that precedes a program's own diagnostics when it exits
    /// unsuccessfully.
    pub open spec fn failure_heading_spec(self) -> Seq<char> {
        match self {
            Tool::Javac => "Java compilation failed:\n"@,
            Tool::Kotlinc => "Kotlin compilation failed:\n"@,
            Tool::Java => "Program exited unsuccessfully:\n"@,
            Tool::Javadoc => "Documentation failed:\n"@,
            Tool::Git => "Version control failed:\n"@,
        }
    }

    pub fn failure_heading(self) -> (text: String)
        ensures
            text@ == self.failure_heading_spec(),
    {
        match self {
            Tool::Javac => String::from_str("Java compilation failed:\n"),
            Tool::Kotlinc => String::from_str("Kotlin compilation failed:\n"),
            Tool::Java => String::from_str("Program exited unsuccessfully:\n"),
            Tool::Javadoc => String::from_str("Documentation failed:\n"),
            Tool::Git => String::from_str("Version control failed:\n"),
        }
    }
}

/// Why the pipeline stopped without success.
#[derive(Clone, Debug, PartialEq, Eq)]
pub enum BuildError {
    /// A directory under the source root exists but could not be listed.
    Discovery { path: String },
    /// The source tree holds no Java or Kotlin file.
    EmptyProject,
    /// Documentation was asked for and discovery found no file.
    NothingToDocument,
    /// A compiler or the documentation generator could not be started at all.
    ToolchainNotFound { tool: Tool },
    /// A compiler or the documentation generator ran and exited
    /// unsuccessfully; `diagnostics` is what it wrote to standard error.
    Compilation { tool: Tool, diagnostics: String },
    /// The runtime could not be started (`started` is false) or the program
    /// exited unsuccessfully.
    RuntimeLaunch { started: bool, code: Option<i32>, diagnostics: String },
    /// The output directory could not be created.
    OutputDir { path: String },
    /// The digest of the source tree could not be computed.
    Digest,
    /// An event arrived that the pipeline was not waiting for.
    OutOfTurn,
}

/// A `BuildError` with its texts as sequences of characters.
pub enum BuildErrorView {
    Discovery { path: Seq<char> },
    EmptyProject,
    NothingToDocument,
    ToolchainNotFound { tool: Tool },
    Compilation { tool: Tool, diagnostics: Seq<char> },
    RuntimeLaunch { started: bool, code: Option<i32>, diagnostics: Seq<char> },
    OutputDir { path: Seq<char> },
    Digest,
    OutOfTurn,
}

impl View for BuildError {
    type V = BuildErrorView;

    open spec fn view(&self) -> BuildErrorView {
        match *self {
            BuildError::Discovery { path } => BuildErrorView::Discovery { path: path@ },
            BuildError::EmptyProject => BuildErrorView::EmptyProject,
            BuildError::NothingToDocument => BuildErrorView::NothingToDocument,
            BuildError::ToolchainNotFound { tool } => BuildErrorView::ToolchainNotFound { tool },
            BuildError::Compilation { tool, diagnostics } => BuildErrorView::Compilation {
                tool,
                diagnostics: diagnostics@,
            },
            BuildError::RuntimeLaunch { started, code, diagnostics } => {
                BuildErrorView::RuntimeLaunch { started, code, diagnostics: diagnostics@ }
            },
            BuildError::OutputDir { path } => BuildErrorView::OutputDir { path: path@ },
            BuildError::Digest => BuildErrorView::Digest,
            BuildError::OutOfTurn => BuildErrorView::OutOfTurn,
        }
    }
}

impl BuildErrorView {
    /// The text shown to the user. What an external program wrote is carried
    /// unchanged behind a heading of one line.
    pub open spec fn message(self) -> Seq<char> {
        match self {
            BuildErrorView::Discovery { path } => "Failed to read directory: "@ + path,
            BuildErrorView::EmptyProject => "No source files found to compile"@,
            BuildErrorView::NothingToDocument => "No Java files to make documentation"@,
            BuildErrorView::ToolchainNotFound { tool } => tool.missing_spec(),
            BuildErrorView::Compilation { tool, diagnostics } => tool.failure_heading_spec()
                + diagnostics,
            BuildErrorView::RuntimeLaunch { started, code, diagnostics } => if started {
                Tool::Java.failure_heading_spec() + diagnostics
            } else {
                Tool::Java.missing_spec()
            },
            BuildErrorView::OutputDir { path } => "Failed to create output directory"@,
            BuildErrorView::Digest => "Failed to hash the source tree"@,
            BuildErrorView::OutOfTurn => "The build was driven out of order"@,
        }
    }
}

impl BuildError {
    /// The text shown to the user.
    pub fn message(&self) -> (text: String)
        ensures
            text@ == self@.message(),
    {
        match self {
            BuildError::Discovery { path } => {
                let mut text = String::from_str("Failed to read directory: ");
                text.append(path.as_str());
                text
            },
            BuildError::EmptyProject => String::from_str("No source files found to compile"),
            BuildError::NothingToDocument => String::from_str(
                "No Java files to make documentation",
            ),
            BuildError::ToolchainNotFound { tool } => tool.missing(),
            BuildError::Compilation { tool, diagnostics } => {
                let mut text = tool.failure_heading();
                text.append(diagnostics.as_str());
                text
            },
            BuildError::RuntimeLaunch { started, code, diagnostics } => {
                if *started {
                    let mut text = Tool::Java.failure_heading();
                    text.append(diagnostics.as_str());
                    text
                } else {
                    Tool::Java.missing()
                }
            },
            BuildError::OutputDir { path } => String::from_str("Failed to create output directory"),
            BuildError::Digest => String::from_str("Failed to hash the source tree"),
            BuildError::OutOfTurn => String::from_str("The build was driven out of order"),
        }
    }
}

} // verus!
