//! Command-line surface.
//!
//! The parsed command line, as plain data, and the decision of what the
//! program does with it. Argument parsing itself happens outside the
//! library; it fills [`Cli`] and acts on what [`dispatch`] returns.

use vstd::prelude::*;

verus! {

/// The parsed command line: an optional subcommand.
#[derive(Debug)]
pub struct Cli {
    pub command: Option<Commands>,
}

/// The subcommands the program accepts.
#[derive(Debug)]
pub enum Commands {
    /// Spawn a PTY-based shell with custom prompt.
    Pty,
    /// Kubernetes exercises.
    K8s { exercise: K8sExercise },
    /// Custom exercises.
    Kustom { custom_file: Option<String> },
}

/// The Kubernetes exercise kinds.
#[derive(Debug)]
pub enum K8sExercise {
    /// Command quiz.
    Quiz { num: Option<usize>, category: Option<String> },
}

/// What the program does for one parsed command line.
#[derive(Debug)]
pub enum TopAction {
    /// Launch the PTY-backed shell session.
    RunPtySession,
    /// Run the command quiz with the given bounds.
    RunK8sQuiz { num: Option<usize>, category: Option<String> },
    /// Custom exercises are not available.
    KustomUnavailable,
    /// No subcommand: show the interactive main menu.
    ShowMainMenu,
}

/// Decide what the program does: the PTY subcommand launches a session,
/// the quiz subcommand runs the quiz, the custom-exercise subcommand only
/// reports that it is unavailable, and no subcommand opens the main menu.
pub fn dispatch(cli: Cli) -> (r: TopAction)
    ensures
        cli.command is None ==> r is ShowMainMenu,
        cli.command matches Some(c) ==> {
            &&& c is Pty ==> r is RunPtySession
            &&& c matches Commands::K8s { exercise } ==> (exercise matches K8sExercise::Quiz {
                num,
                category,
            } ==> {
                &&& r matches TopAction::RunK8sQuiz { num: n2, category: c2 } && n2 == num && c2
                    == category
            })
            &&& c is Kustom ==> r is KustomUnavailable
        },
{
    match cli.command {
        None => TopAction::ShowMainMenu,
        Some(Commands::Pty) => TopAction::RunPtySession,
        Some(Commands::K8s { exercise: K8sExercise::Quiz { num, category } }) => {
            TopAction::RunK8sQuiz { num, category }
        },
        Some(Commands::Kustom { custom_file: _ }) => TopAction::KustomUnavailable,
    }
}

} // verus!
