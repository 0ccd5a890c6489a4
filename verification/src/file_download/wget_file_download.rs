use vstd::prelude::*;
use vstd::string::StringExecFns;

use crate::command::{Command, Invocation};
use crate::file_download::file_download::FileDownload;
use crate::terminal::{
    batch_notes, item_note_pair, lemma_batch_notes_push, Note, NoteStyle, TerminalOutput,
};

verus! {

/// Argument vector with which wget downloads one remote source into a
/// destination folder.
pub open spec fn wget_arguments(remote_source: Seq<char>, destination_folder: Seq<char>) -> Seq<
    Seq<char>,
> {
    seq![remote_source, "-O"@, destination_folder]
}

/// The wget runs that downloading a remote-source list performs: exactly
/// one per source, in list order.
pub open spec fn wget_invocations(
    remote_sources: Seq<Seq<char>>,
    destination_folder: Seq<char>,
) -> Seq<Invocation> {
    Seq::new(
        remote_sources.len(),
        |i: int|
            Invocation {
                tool: "wget"@,
                arguments: wget_arguments(remote_sources[i], destination_folder),
            },
    )
}

/// Downloading a remote-source list drives exactly one wget run per
/// source, in list order, each with the argument vector derived from that
/// source and the handler's fixed destination folder alone.
pub proof fn lemma_wget_one_invocation_per_source(
    remote_sources: Seq<Seq<char>>,
    destination_folder: Seq<char>,
)
    ensures
        wget_invocations(remote_sources, destination_folder).len() == remote_sources.len(),
        forall|i: int|
            0 <= i < remote_sources.len() ==> wget_invocations(remote_sources, destination_folder)[i]
                == (Invocation {
                tool: "wget"@,
                arguments: wget_arguments(remote_sources[i], destination_folder),
            }),
{
}

/// How the wget handler phrases its notifications.
pub open spec fn wget_note_style() -> NoteStyle {
    NoteStyle {
        loading_prefix: "Downloading "@,
        success_prefix: "Successfully downloaded "@,
        warning_prefix: "Unable to download "@,
    }
}

/// Downloads files by driving the `wget` command, one run per remote
/// source.
pub struct WgetFileDownload {
    /// The folder where the files are downloaded to.
    pub destination_folder: String,
}

impl WgetFileDownload {
    /// A handler downloading into `destination_folder`.
    pub fn new(destination_folder: &str) -> (result: WgetFileDownload)
        ensures
            result.destination_folder@ == destination_folder@,
    {
        WgetFileDownload { destination_folder: destination_folder.to_owned() }
    }

    /// Download one remote source: notify loading, run wget, then notify
    /// success or warning depending on the run's outcome.  Failures are
    /// downgraded to a warning note, never propagated.
    pub fn download_file<C: Command, T: TerminalOutput>(
        &self,
        remote_source: &String,
        command: &mut C,
        output: &mut T,
    ) -> (ok: bool)
        ensures
            final(command).invocations() == old(command).invocations().push(
                Invocation {
                    tool: "wget"@,
                    arguments: wget_arguments(remote_source@, self.destination_folder@),
                },
            ),
            final(output).notes() == old(output).notes() + item_note_pair(
                wget_note_style(),
                remote_source@,
                ok,
            ),
    {
        let mut loading_message = "Downloading ".to_owned();
        loading_message.append(remote_source.as_str());
        output.loading(&loading_message);

        let arguments: Vec<String> = vec![
            remote_source.clone(),
            "-O".to_owned(),
            self.destination_folder.clone(),
        ];
        proof {
            assert(arguments.deep_view() =~= wget_arguments(
                remote_source@,
                self.destination_folder@,
            ));
        }
        let result = command.execute("wget", &arguments);
        let is_success = match result {
            Ok(success) => success,
            Err(_) => false,
        };

        if is_success {
            let mut message = "Successfully downloaded ".to_owned();
            message.append(remote_source.as_str());
            output.finish_with_success(&message);
        } else {
            let mut message = "Unable to download ".to_owned();
            message.append(remote_source.as_str());
            output.finish_with_warning(&message);
        }
        proof {
            assert(output.notes() =~= old(output).notes() + item_note_pair(
                wget_note_style(),
                remote_source@,
                is_success,
            ));
        }
        is_success
    }
}

impl FileDownload for WgetFileDownload {
    open spec fn planned_invocations(&self, remote_sources: Seq<Seq<char>>) -> Seq<Invocation> {
        wget_invocations(remote_sources, self.destination_folder@)
    }

    open spec fn note_style(&self) -> NoteStyle {
        wget_note_style()
    }

    fn download<C: Command, T: TerminalOutput>(
        &self,
        remote_sources: &Vec<String>,
        command: &mut C,
        output: &mut T,
    ) {
        let ghost initial_invocations = command.invocations();
        let ghost initial_notes = output.notes();
        let ghost items = remote_sources.deep_view();
        let ghost mut outcomes: Seq<bool> = Seq::empty();
        let mut index: usize = 0;
        proof {
            assert(items.take(0) =~= Seq::<Seq<char>>::empty());
            assert(wget_invocations(Seq::empty(), self.destination_folder@) =~= Seq::<
                Invocation,
            >::empty());
            assert(batch_notes(wget_note_style(), Seq::empty(), Seq::empty()) =~= Seq::<
                Note,
            >::empty());
        }
        while index < remote_sources.len()
            invariant
                index <= remote_sources.len(),
                items == remote_sources.deep_view(),
                items.len() == remote_sources@.len(),
                command.invocations() == initial_invocations + wget_invocations(
                    items.take(index as int),
                    self.destination_folder@,
                ),
                outcomes.len() == index,
                output.notes() == initial_notes + batch_notes(
                    wget_note_style(),
                    items.take(index as int),
                    outcomes,
                ),
            decreases remote_sources.len() - index,
        {
            let remote_source = &remote_sources[index];
            proof {
                assert(remote_source@ == items[index as int]);
            }
            let ok = self.download_file(remote_source, command, output);
            proof {
                lemma_batch_notes_push(
                    wget_note_style(),
                    items.take(index as int),
                    outcomes,
                    items[index as int],
                    ok,
                );
                assert(items.take(index as int).push(items[index as int]) =~= items.take(
                    index as int + 1,
                ));
                assert(wget_invocations(items.take(index as int + 1), self.destination_folder@)
                    =~= wget_invocations(items.take(index as int), self.destination_folder@).push(
                    Invocation {
                        tool: "wget"@,
                        arguments: wget_arguments(
                            items[index as int],
                            self.destination_folder@,
                        ),
                    },
                ));
                outcomes = outcomes.push(ok);
            }
            index += 1;
        }
        proof {
            assert(items.take(remote_sources@.len() as int) =~= items);
            assert(exists|witness: Seq<bool>|
                witness.len() == remote_sources.deep_view().len() && output.notes()
                    == initial_notes + batch_notes(
                    self.note_style(),
                    remote_sources.deep_view(),
                    witness,
                )) by {
                assert(outcomes.len() == remote_sources.deep_view().len() && output.notes()
                    == initial_notes + batch_notes(
                    self.note_style(),
                    remote_sources.deep_view(),
                    outcomes,
                ));
            }
        }
    }
}

} // verus!
