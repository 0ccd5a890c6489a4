use vstd::prelude::*;

use crate::command::{Command, Invocation};
use crate::terminal::{batch_notes, NoteStyle, TerminalOutput};

verus! {

/// Public methods to call on a specific download manager.
///
/// Downloading a list of remote sources drives one external run per
/// source, in list order, and notifies the terminal output about every
/// source: a loading note first, then a success note if the run succeeded,
/// a warning note otherwise.  A failing source never stops the sources
/// after it.
pub trait FileDownload {
    /// The runs that downloading `remote_sources` performs, in order.
    spec fn planned_invocations(&self, remote_sources: Seq<Seq<char>>) -> Seq<Invocation>;

    /// How this download manager phrases its notifications.
    spec fn note_style(&self) -> NoteStyle;

    /// Download every listed remote source.
    fn download<C: Command, T: TerminalOutput>(
        &self,
        remote_sources: &Vec<String>,
        command: &mut C,
        output: &mut T,
    )
        ensures
            final(command).invocations() == old(command).invocations()
                + self.planned_invocations(remote_sources.deep_view()),
            exists|outcomes: Seq<bool>|
                outcomes.len() == remote_sources.deep_view().len() && final(output).notes() == old(
                    output,
                ).notes() + batch_notes(self.note_style(), remote_sources.deep_view(), outcomes),
    ;
}

} // verus!
