use vstd::prelude::*;
use vstd::string::StringExecFns;

use crate::command::{Command, Invocation};
use crate::terminal::{
    batch_notes, item_note_pair, lemma_batch_notes_push, Note, NoteStyle, TerminalOutput,
};
use crate::version_control::version_control_system::VersionControlSystem;

verus! {

/// Argument vector with which git clones one repository.
pub open spec fn git_arguments(repository: Seq<char>) -> Seq<Seq<char>> {
    seq!["clone"@, repository]
}

/// The git runs that downloading a repository list performs: exactly one
/// per repository, in list order.
pub open spec fn git_invocations(repositories: Seq<Seq<char>>) -> Seq<Invocation> {
    Seq::new(
        repositories.len(),
        |i: int| Invocation { tool: "git"@, arguments: git_arguments(repositories[i]) },
    )
}

/// Downloading a repository list drives exactly one git run per
/// repository, in list order, each with the argument vector derived from
/// that repository alone.
pub proof fn lemma_git_one_invocation_per_repository(repositories: Seq<Seq<char>>)
    ensures
        git_invocations(repositories).len() == repositories.len(),
        forall|i: int|
            0 <= i < repositories.len() ==> git_invocations(repositories)[i] == (Invocation {
                tool: "git"@,
                arguments: git_arguments(repositories[i]),
            }),
{
}

/// How the git handler phrases its notifications.
pub open spec fn git_note_style() -> NoteStyle {
    NoteStyle {
        loading_prefix: "Cloning "@,
        success_prefix: "Successfully cloned "@,
        warning_prefix: "Unable to clone "@,
    }
}

/// Downloads repositories by driving the `git` command, one clone per
/// repository.
pub struct GitVersionControlSystem {
    /// The folder where all repositories are going to be cloned into.
    pub destination_folder: String,
}

impl GitVersionControlSystem {
    /// A handler cloning into `destination_folder`.
    pub fn new(destination_folder: &str) -> (result: GitVersionControlSystem)
        ensures
            result.destination_folder@ == destination_folder@,
    {
        GitVersionControlSystem { destination_folder: destination_folder.to_owned() }
    }

    /// Clone one repository: notify loading, run git, then notify success
    /// or warning depending on the run's outcome.  Failures are downgraded
    /// to a warning note, never propagated.
    fn clone_repository<C: Command, T: TerminalOutput>(
        &self,
        repository: &String,
        command: &mut C,
        output: &mut T,
    ) -> (ok: bool)
        ensures
            final(command).invocations() == old(command).invocations().push(
                Invocation { tool: "git"@, arguments: git_arguments(repository@) },
            ),
            final(output).notes() == old(output).notes() + item_note_pair(
                git_note_style(),
                repository@,
                ok,
            ),
    {
        let mut loading_message = "Cloning ".to_owned();
        loading_message.append(repository.as_str());
        output.loading(&loading_message);

        let arguments: Vec<String> = vec!["clone".to_owned(), repository.clone()];
        proof {
            assert(arguments.deep_view() =~= git_arguments(repository@));
        }
        let result = command.execute("git", &arguments);
        let is_success = match result {
            Ok(success) => success,
            Err(_) => false,
        };

        if is_success {
            let mut message = "Successfully cloned ".to_owned();
            message.append(repository.as_str());
            output.finish_with_success(&message);
        } else {
            let mut message = "Unable to clone ".to_owned();
            message.append(repository.as_str());
            output.finish_with_warning(&message);
        }
        proof {
            assert(output.notes() =~= old(output).notes() + item_note_pair(
                git_note_style(),
                repository@,
                is_success,
            ));
        }
        is_success
    }
}

impl VersionControlSystem for GitVersionControlSystem {
    open spec fn planned_invocations(&self, repositories: Seq<Seq<char>>) -> Seq<Invocation> {
        git_invocations(repositories)
    }

    open spec fn note_style(&self) -> NoteStyle {
        git_note_style()
    }

    fn download<C: Command, T: TerminalOutput>(
        &self,
        repositories: &Vec<String>,
        command: &mut C,
        output: &mut T,
    ) {
        let ghost initial_invocations = command.invocations();
        let ghost initial_notes = output.notes();
        let ghost items = repositories.deep_view();
        let ghost mut outcomes: Seq<bool> = Seq::empty();
        let mut index: usize = 0;
        proof {
            assert(items.take(0) =~= Seq::<Seq<char>>::empty());
            assert(git_invocations(Seq::empty()) =~= Seq::<Invocation>::empty());
            assert(batch_notes(git_note_style(), Seq::empty(), Seq::empty()) =~= Seq::<
                Note,
            >::empty());
        }
        while index < repositories.len()
            invariant
                index <= repositories.len(),
                items == repositories.deep_view(),
                items.len() == repositories@.len(),
                command.invocations() == initial_invocations + git_invocations(
                    items.take(index as int),
                ),
                outcomes.len() == index,
                output.notes() == initial_notes + batch_notes(
                    git_note_style(),
                    items.take(index as int),
                    outcomes,
                ),
            decreases repositories.len() - index,
        {
            let repository = &repositories[index];
            proof {
                assert(repository@ == items[index as int]);
            }
            let ok = self.clone_repository(repository, command, output);
            proof {
                lemma_batch_notes_push(
                    git_note_style(),
                    items.take(index as int),
                    outcomes,
                    items[index as int],
                    ok,
                );
                assert(items.take(index as int).push(items[index as int]) =~= items.take(
                    index as int + 1,
                ));
                assert(git_invocations(items.take(index as int + 1)) =~= git_invocations(
                    items.take(index as int),
                ).push(
                    Invocation { tool: "git"@, arguments: git_arguments(items[index as int]) },
                ));
                outcomes = outcomes.push(ok);
            }
            index += 1;
        }
        proof {
            assert(items.take(repositories@.len() as int) =~= items);
            assert(exists|witness: Seq<bool>|
                witness.len() == repositories.deep_view().len() && output.notes() == initial_notes
                    + batch_notes(self.note_style(), repositories.deep_view(), witness)) by {
                assert(outcomes.len() == repositories.deep_view().len() && output.notes()
                    == initial_notes + batch_notes(
                    self.note_style(),
                    repositories.deep_view(),
                    outcomes,
                ));
            }
        }
    }
}

} // verus!
