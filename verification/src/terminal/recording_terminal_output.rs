use vstd::prelude::*;

use crate::terminal::terminal_output::{Note, TerminalOutput};

verus! {

/// The kind of a recorded notification.
#[derive(Clone, Copy, Debug, PartialEq, Eq, Structural)]
pub enum NoteKind {
    Loading,
    Success,
    Warning,
}

/// One notification a [`RecordingTerminalOutput`] received, kept as plain
/// values so tests can inspect it.
#[derive(Debug, PartialEq, Eq)]
pub struct RecordedNote {
    pub kind: NoteKind,
    pub message: String,
}

impl View for RecordedNote {
    type V = Note;

    open spec fn view(&self) -> Note {
        match self.kind {
            NoteKind::Loading => Note::Loading(self.message@),
            NoteKind::Success => Note::Success(self.message@),
            NoteKind::Warning => Note::Warning(self.message@),
        }
    }
}

/// A terminal output that renders nothing: it keeps every notification it
/// receives, in order.
///
/// This is the sink the test-suite drives the handlers with; the
/// spinner-rendering sink lives with the binary, outside the verified
/// library.
pub struct RecordingTerminalOutput {
    pub entries: Vec<RecordedNote>,
}

impl RecordingTerminalOutput {
    /// A terminal output with no recorded notifications.
    pub fn new() -> (result: RecordingTerminalOutput)
        ensures
            result.notes() == Seq::<Note>::empty(),
    {
        let output = RecordingTerminalOutput { entries: Vec::new() };
        proof {
            assert(output.entries@.map_values(|n: RecordedNote| n@) =~= Seq::<Note>::empty());
        }
        output
    }
}

impl TerminalOutput for RecordingTerminalOutput {
    open spec fn notes(&self) -> Seq<Note> {
        self.entries@.map_values(|n: RecordedNote| n@)
    }

    fn loading(&mut self, message: &String) {
        self.entries.push(RecordedNote { kind: NoteKind::Loading, message: message.clone() });
        proof {
            assert(self.entries@.map_values(|n: RecordedNote| n@) =~= old(
                self,
            ).entries@.map_values(|n: RecordedNote| n@).push(Note::Loading(message@)));
        }
    }

    fn finish_with_success(&mut self, message: &String) {
        self.entries.push(RecordedNote { kind: NoteKind::Success, message: message.clone() });
        proof {
            assert(self.entries@.map_values(|n: RecordedNote| n@) =~= old(
                self,
            ).entries@.map_values(|n: RecordedNote| n@).push(Note::Success(message@)));
        }
    }

    fn finish_with_warning(&mut self, message: &String) {
        self.entries.push(RecordedNote { kind: NoteKind::Warning, message: message.clone() });
        proof {
            assert(self.entries@.map_values(|n: RecordedNote| n@) =~= old(
                self,
            ).entries@.map_values(|n: RecordedNote| n@).push(Note::Warning(message@)));
        }
    }
}

} // verus!
