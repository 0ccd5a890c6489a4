use vstd::prelude::*;

use crate::command::{Command, Invocation};
use crate::terminal::{batch_notes, NoteStyle, TerminalOutput};

verus! {

/// Public methods to call on a specific version control system.
///
/// Downloading a list of repositories drives one external run per
/// repository, in list order, and notifies the terminal output about every
/// repository: a loading note first, then a success note if the run
/// succeeded, a warning note otherwise.  A failing repository never stops
/// the repositories after it.
pub trait VersionControlSystem {
    /// The runs that downloading `repositories` performs, in order.
    spec fn planned_invocations(&self, repositories: Seq<Seq<char>>) -> Seq<Invocation>;

    /// How this version control system phrases its notifications.
    spec fn note_style(&self) -> NoteStyle;

    /// Download every listed repository to the local computer.
    fn download<C: Command, T: TerminalOutput>(
        &self,
        repositories: &Vec<String>,
        command: &mut C,
        output: &mut T,
    )
        ensures
            final(command).invocations() == old(command).invocations()
                + self.planned_invocations(repositories.deep_view()),
            exists|outcomes: Seq<bool>|
                outcomes.len() == repositories.deep_view().len() && final(output).notes() == old(
                    output,
                ).notes() + batch_notes(self.note_style(), repositories.deep_view(), outcomes),
    ;
}

} // verus!
