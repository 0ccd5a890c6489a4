use vstd::prelude::*;

use crate::command::{Command, Invocation};
use crate::configuration::{Configuration, ConfigurationView};
use crate::terminal::{Note, TerminalOutput};

verus! {

/// A configuration parser: walks the document body's three optional
/// sections in document order — packages, then version control, then
/// downloads — resolves every entry's tool name through the matching
/// capability factory, and lets the resolved handler process the entry's
/// item list.  Entries naming an unsupported tool are skipped silently.
pub trait Parser {
    /// The runs that parsing `configuration` performs, in order.
    spec fn planned_invocations(&self, configuration: ConfigurationView) -> Seq<Invocation>;

    /// How the notifications after parsing `configuration` relate to the
    /// notifications before.
    spec fn notes_produced(
        &self,
        configuration: ConfigurationView,
        pre: Seq<Note>,
        post: Seq<Note>,
    ) -> bool;

    /// Process every entry of every present section.
    fn parse<C: Command, T: TerminalOutput>(
        &self,
        configuration: &Configuration,
        command: &mut C,
        output: &mut T,
    )
        ensures
            final(command).invocations() == old(command).invocations()
                + self.planned_invocations(configuration@),
            self.notes_produced(configuration@, old(output).notes(), final(output).notes()),
    ;
}

} // verus!
