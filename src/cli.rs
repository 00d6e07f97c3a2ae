use vstd::prelude::*;

verus! {

/// The commands of the command line.
pub enum Commands {
    /// Initialize a workspace in a folder.
    Init { path: String },
    /// Watch a folder for file changes.
    Watch { path: String },
    /// Show the event history.
    Log,
}

/// The operation a command asks for.
pub enum Operation {
    /// Make sure the workspace rooted at `root` holds a version graph.
    Initialize { root: String },
    /// Classify and record the changes under `root` until stopped.
    Watch { root: String },
    /// Replay the current workspace's history, newest first.
    ReplayHistory,
}

/// Maps a command to the operation it runs.
pub fn dispatch(command: Commands) -> (r: Operation)
    ensures
        match command {
            Commands::Init { path } => r matches Operation::Initialize { root } && root@ == path@,
            Commands::Watch { path } => r matches Operation::Watch { root } && root@ == path@,
            Commands::Log => r matches Operation::ReplayHistory,
        },
{
    match command {
        Commands::Init { path } => Operation::Initialize { root: path },
        Commands::Watch { path } => Operation::Watch { root: path },
        Commands::Log => Operation::ReplayHistory,
    }
}

} // verus!
