use vstd::prelude::*;

verus! {

/// One notification handed to a terminal output, as the contracts record
/// it: the kind of event together with the full message text.
pub enum Note {
    Loading(Seq<char>),
    Success(Seq<char>),
    Warning(Seq<char>),
}

/// The fixed message prefixes with which one capability handler phrases its
/// notifications; the processed item is appended to the prefix.
pub struct NoteStyle {
    pub loading_prefix: Seq<char>,
    pub success_prefix: Seq<char>,
    pub warning_prefix: Seq<char>,
}

/// The two notifications one processed item produces: a loading note first,
/// then exactly one of a success or a warning note, depending on whether
/// the item's run succeeded.
pub open spec fn item_note_pair(style: NoteStyle, item: Seq<char>, ok: bool) -> Seq<Note> {
    seq![
        Note::Loading(style.loading_prefix + item),
        if ok {
            Note::Success(style.success_prefix + item)
        } else {
            Note::Warning(style.warning_prefix + item)
        },
    ]
}

/// The notifications a whole batch of items produces, given the per-item
/// run outcomes: the item note pairs, in item order.
pub open spec fn batch_notes(style: NoteStyle, items: Seq<Seq<char>>, outcomes: Seq<bool>) -> Seq<
    Note,
> {
    Seq::new(
        2 * items.len(),
        |i: int|
            if i % 2 == 0 {
                Note::Loading(style.loading_prefix + items[i / 2])
            } else if outcomes[i / 2] {
                Note::Success(style.success_prefix + items[i / 2])
            } else {
                Note::Warning(style.warning_prefix + items[i / 2])
            },
    )
}

/// Appending one more item to a batch appends exactly that item's note
/// pair.
pub proof fn lemma_batch_notes_push(
    style: NoteStyle,
    items: Seq<Seq<char>>,
    outcomes: Seq<bool>,
    item: Seq<char>,
    ok: bool,
)
    requires
        outcomes.len() == items.len(),
    ensures
        batch_notes(style, items.push(item), outcomes.push(ok)) == batch_notes(
            style,
            items,
            outcomes,
        ) + item_note_pair(style, item, ok),
{
    assert(batch_notes(style, items.push(item), outcomes.push(ok)) =~= batch_notes(
        style,
        items,
        outcomes,
    ) + item_note_pair(style, item, ok));
}

/// Notification ordering law: in the notes a batch produces, the loading
/// note for every item strictly precedes that item's closing note, and the
/// closing note is exactly one of a success or a warning note — never both,
/// never neither.
pub proof fn lemma_batch_notes_pairing(style: NoteStyle, items: Seq<Seq<char>>, outcomes: Seq<bool>)
    requires
        outcomes.len() == items.len(),
    ensures
        batch_notes(style, items, outcomes).len() == 2 * items.len(),
        forall|i: int|
            0 <= i < items.len() ==> batch_notes(style, items, outcomes)[2 * i] == Note::Loading(
                style.loading_prefix + items[i],
            ),
        forall|i: int|
            0 <= i < items.len() ==> batch_notes(style, items, outcomes)[2 * i + 1] == (if outcomes[i] {
                Note::Success(style.success_prefix + items[i])
            } else {
                Note::Warning(style.warning_prefix + items[i])
            }),
{
}

/// Progress reporting collaborator: receives loading, success and warning
/// events.
///
/// The trait carries a ghost history of every notification received, so
/// that callers can state exactly which notifications a batch of work
/// emits, and in which order.
pub trait TerminalOutput {
    /// Ghost history of all notifications received, oldest first.
    /// A sink that keeps no history — the spinner-rendering one the binary
    /// supplies — may leave the default, an empty history.
    open spec fn notes(&self) -> Seq<Note> {
        Seq::empty()
    }

    /// Send a message to the terminal with a loading indicator.
    fn loading(&mut self, message: &String)
        ensures
            final(self).notes() == old(self).notes().push(Note::Loading(message@)),
    ;

    /// Send a message to the terminal with a success indicator.
    fn finish_with_success(&mut self, message: &String)
        ensures
            final(self).notes() == old(self).notes().push(Note::Success(message@)),
    ;

    /// Send a message to the terminal with a warning indicator.
    fn finish_with_warning(&mut self, message: &String)
        ensures
            final(self).notes() == old(self).notes().push(Note::Warning(message@)),
    ;
}

} // verus!
