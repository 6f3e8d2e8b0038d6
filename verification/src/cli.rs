//! The commands that a client can ask for.

use vstd::prelude::*;

verus! {

/// What a client asks of the daemon, or of itself.
#[derive(Debug, PartialEq, Eq)]
pub enum Commands {
    /// List the sessions, or the jobs of the directory `dir`.
    List {
        /// Whether the answer goes to an interactive picker.
        fzf: bool,
        /// The directory whose jobs are asked for; `None` asks for all sessions.
        dir: Option<String>,
    },
    /// Register the process `pid` as job `number` of the caller's directory.
    Register { pid: u32, number: u8, command: String },
    /// Start `command` in the background and register it.
    Run { command: String },
    /// Stop the daemon.
    Kill,
    /// Print the shell integration for `shell`. The daemon has no part in it.
    Init { shell: String },
}

/// The mathematical value of [`Commands`].
pub enum CommandsView {
    List { fzf: bool, dir: Option<Seq<char>> },
    Register { pid: u32, number: u8, command: Seq<char> },
    Run { command: Seq<char> },
    Kill,
    Init { shell: Seq<char> },
}

/// The text of an optional string.
pub open spec fn optional_text(text: Option<String>) -> Option<Seq<char>> {
    match text {
        Some(text) => Some(text@),
        None => None,
    }
}

impl View for Commands {
    type V = CommandsView;

    open spec fn view(&self) -> CommandsView {
        match *self {
            Commands::List { fzf, dir } => CommandsView::List { fzf: fzf, dir: optional_text(dir) },
            Commands::Register { pid, number, command } => CommandsView::Register {
                pid: pid,
                number: number,
                command: command@,
            },
            Commands::Run { command } => CommandsView::Run { command: command@ },
            Commands::Kill => CommandsView::Kill,
            Commands::Init { shell } => CommandsView::Init { shell: shell@ },
        }
    }
}

} // verus!
