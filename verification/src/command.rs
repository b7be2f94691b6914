//! The commands of the tool.

use crate::cache::ensure_cache_dir;
use crate::diff::diff;
use crate::emoji::EMOJI_ERROR;
use crate::pin::{pin_to_current_overlay, pin_to_specific_commit};
use crate::session::{Phase, Session, SessionView};
use crate::status::status;
use crate::text::text3;
use crate::unpin::unpin;
use vstd::prelude::*;

verus! {

/// What the user asks for.
#[derive(Debug, PartialEq, Eq)]
pub enum Command {
    /// Pin to the given commit, or to the current one if none is given.
    Pin { commit: Option<String> },
    /// Remove the pin.
    Unpin,
    /// Show the state of the pin.
    Status,
    /// Compare the pin with the current commit.
    Diff,
}

pub enum CommandView {
    Pin { commit: Option<Seq<char>> },
    Unpin,
    Status,
    Diff,
}

impl DeepView for Command {
    type V = CommandView;

    open spec fn deep_view(&self) -> CommandView {
        match self {
            Command::Pin { commit } => CommandView::Pin { commit: commit.deep_view() },
            Command::Unpin => CommandView::Unpin,
            Command::Status => CommandView::Status,
            Command::Diff => CommandView::Diff,
        }
    }
}

impl SessionView {
    /// The session after the operation that `command` names.
    pub open spec fn dispatch(self, command: CommandView) -> (SessionView, Option<i32>) {
        match command {
            CommandView::Pin { commit: None } => self.pin_to_current_overlay(),
            CommandView::Pin { commit: Some(commit) } => self.pin_to_specific_commit(commit),
            CommandView::Unpin => self.unpin(),
            CommandView::Status => self.status(),
            CommandView::Diff => self.diff(),
        }
    }

    /// The session after what the tool does before it reads its
    /// arguments: the cache directory is made. `Some(code)` ends the tool
    /// with that exit code.
    pub open spec fn startup(self) -> (SessionView, Option<Option<i32>>) {
        let (made, outcome) = self.ensure_cache_dir();
        match outcome {
            None => (made, None),
            Some(Err(e)) => (
                made.complain(EMOJI_ERROR@ + " Failed to create cache directory: "@ + e),
                Some(Some(1)),
            ),
            Some(Ok(_)) => (made, Some(None)),
        }
    }
}

/// Makes the cache directory, as the tool does before it reads its
/// arguments. `Some(Some(code))` ends the tool with that exit code.
pub fn startup(session: &mut Session) -> (failed: Option<Option<i32>>)
    ensures
        final(session)@ == old(session)@.startup().0,
        failed == old(session)@.startup().1,
        failed is None ==> final(session)@.phase != Phase::Running,
        failed is Some && old(session)@.phase == Phase::Running ==> final(session)@.phase
            == Phase::Running,
{
    match ensure_cache_dir(session) {
        None => None,
        Some(Err(e)) => {
            session.complain(
                text3(EMOJI_ERROR, " Failed to create cache directory: ", e.message.as_str()),
            );
            Some(Some(1))
        },
        Some(Ok(_)) => Some(None),
    }
}

/// Runs the operation that `command` names as far as the record allows.
/// Returns the exit code when the operation is complete, and `None` when
/// the session has stopped: it then says what it waits for.
pub fn dispatch(session: &mut Session, command: &Command) -> (code: Option<i32>)
    ensures
        final(session)@ == old(session)@.dispatch(command.deep_view()).0,
        code == old(session)@.dispatch(command.deep_view()).1,
        code is None ==> final(session)@.phase != Phase::Running,
        code is Some && old(session)@.phase == Phase::Running ==> final(session)@.phase
            == Phase::Running,
        code matches Some(c) ==> c == 0 || c == 1,
        code matches Some(c) ==> (command is Unpin || command is Status) ==> c == 0,
{
    match command {
        Command::Pin { commit: None } => pin_to_current_overlay(session),
        Command::Pin { commit: Some(commit) } => pin_to_specific_commit(session, commit.as_str()),
        Command::Unpin => unpin(session),
        Command::Status => status(session),
        Command::Diff => diff(session),
    }
}

} // verus!
