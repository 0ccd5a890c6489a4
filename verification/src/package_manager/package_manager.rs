use vstd::prelude::*;

use crate::command::{Command, Invocation};
use crate::terminal::{batch_notes, NoteStyle, TerminalOutput};

verus! {

/// Public methods to call on a specific package manager.
///
/// Installing a list of applications drives one external run per
/// application, in list order, and notifies the terminal output about every
/// application: a loading note first, then a success note if the run
/// succeeded, a warning note otherwise.  A failing application never stops
/// the applications after it.
pub trait PackageManager {
    /// The runs that installing `applications` performs, in order.
    spec fn planned_invocations(&self, applications: Seq<Seq<char>>) -> Seq<Invocation>;

    /// How this package manager phrases its notifications.
    spec fn note_style(&self) -> NoteStyle;

    /// Install every listed application.
    fn install<C: Command, T: TerminalOutput>(
        &self,
        applications: &Vec<String>,
        command: &mut C,
        output: &mut T,
    )
        ensures
            final(command).invocations() == old(command).invocations()
                + self.planned_invocations(applications.deep_view()),
            exists|outcomes: Seq<bool>|
                outcomes.len() == applications.deep_view().len() && final(output).notes() == old(
                    output,
                ).notes() + batch_notes(self.note_style(), applications.deep_view(), outcomes),
    ;
}

} // verus!
