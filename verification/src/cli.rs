//! The commands of the command line, as the orchestrator reads them.

use crate::pipeline::Goal;
use vstd::prelude::*;

verus! {

/// A parsed command line.
#[derive(Clone, Debug, PartialEq, Eq)]
pub struct Cli {
    pub command: Commands,
}

/// What the user asked for.
#[derive(Clone, Debug, PartialEq, Eq)]
pub enum Commands {
    /// Lay out a new project.
    New { project_name: String, kotlin: bool },
    /// Build the project.
    Build {  },
    /// Build the project and launch it.
    Run {  },
    /// Document the project.
    Doc {  },
}

impl Commands {
    /// The goal of the pipeline that serves a command; a new project needs
    /// no pipeline.
    pub open spec fn goal_spec(self) -> Option<Goal> {
        match self {
            Commands::New { .. } => None,
            Commands::Build {  } => Some(Goal::Build),
            Commands::Run {  } => Some(Goal::Run),
            Commands::Doc {  } => Some(Goal::Document),
        }
    }

    pub fn goal(&self) -> (goal: Option<Goal>)
        ensures
            goal == self.goal_spec(),
    {
        match self {
            Commands::New { .. } => None,
            Commands::Build {  } => Some(Goal::Build),
            Commands::Run {  } => Some(Goal::Run),
            Commands::Doc {  } => Some(Goal::Document),
        }
    }
}

} // verus!
