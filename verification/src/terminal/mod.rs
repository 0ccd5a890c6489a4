mod recording_terminal_output;
mod terminal_output;

pub use recording_terminal_output::NoteKind;
pub use recording_terminal_output::RecordedNote;
pub use recording_terminal_output::RecordingTerminalOutput;
pub use terminal_output::batch_notes;
pub use terminal_output::item_note_pair;
pub use terminal_output::lemma_batch_notes_pairing;
pub use terminal_output::lemma_batch_notes_push;
pub use terminal_output::Note;
pub use terminal_output::NoteStyle;
pub use terminal_output::TerminalOutput;
