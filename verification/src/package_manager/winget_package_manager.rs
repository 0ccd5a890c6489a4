use vstd::prelude::*;
use vstd::string::StringExecFns;

use crate::command::{Command, Invocation};
use crate::package_manager::package_manager::PackageManager;
use crate::terminal::{
    batch_notes, item_note_pair, lemma_batch_notes_push, Note, NoteStyle, TerminalOutput,
};

verus! {

/// Argument vector with which winget installs one application from a
/// package source.
pub open spec fn winget_arguments(application: Seq<char>, source: Seq<char>) -> Seq<Seq<char>> {
    seq!["install"@, application, "-s"@, source, "--disable-interactivity"@]
}

/// The winget runs that installing an application list performs: exactly
/// one per application, in list order.
pub open spec fn winget_invocations(applications: Seq<Seq<char>>, source: Seq<char>) -> Seq<
    Invocation,
> {
    Seq::new(
        applications.len(),
        |i: int| Invocation { tool: "winget"@, arguments: winget_arguments(applications[i], source) },
    )
}

/// Installing an application list drives exactly one winget run per
/// application, in list order, each with the argument vector derived from
/// that application and the handler's fixed source alone.
pub proof fn lemma_winget_one_invocation_per_application(
    applications: Seq<Seq<char>>,
    source: Seq<char>,
)
    ensures
        winget_invocations(applications, source).len() == applications.len(),
        forall|i: int|
            0 <= i < applications.len() ==> winget_invocations(applications, source)[i]
                == (Invocation {
                tool: "winget"@,
                arguments: winget_arguments(applications[i], source),
            }),
{
}

/// How the winget handler phrases its notifications.
pub open spec fn winget_note_style() -> NoteStyle {
    NoteStyle {
        loading_prefix: "Installing "@,
        success_prefix: "Successfully installed "@,
        warning_prefix: "Unable to install "@,
    }
}

/// Installs applications by driving the `winget` command, one run per
/// application.
pub struct WingetPackageManager {
    /// The source where the WinGet packages are retrieved from.
    /// Possible options are
    ///     - msstore
    ///     - winget
    pub source: String,
}

impl WingetPackageManager {
    /// A handler installing from `source`.
    pub fn new(source: &str) -> (result: WingetPackageManager)
        ensures
            result.source@ == source@,
    {
        WingetPackageManager { source: source.to_owned() }
    }

    /// Install one application: notify loading, run winget, then notify
    /// success or warning depending on the run's outcome.  Failures are
    /// downgraded to a warning note, never propagated.
    fn install_application<C: Command, T: TerminalOutput>(
        &self,
        application: &String,
        command: &mut C,
        output: &mut T,
    ) -> (ok: bool)
        ensures
            final(command).invocations() == old(command).invocations().push(
                Invocation {
                    tool: "winget"@,
                    arguments: winget_arguments(application@, self.source@),
                },
            ),
            final(output).notes() == old(output).notes() + item_note_pair(
                winget_note_style(),
                application@,
                ok,
            ),
    {
        let mut loading_message = "Installing ".to_owned();
        loading_message.append(application.as_str());
        output.loading(&loading_message);

        let arguments: Vec<String> = vec![
            "install".to_owned(),
            application.clone(),
            "-s".to_owned(),
            self.source.clone(),
            "--disable-interactivity".to_owned(),
        ];
        proof {
            assert(arguments.deep_view() =~= winget_arguments(application@, self.source@));
        }
        let result = command.execute("winget", &arguments);
        let is_success = match result {
            Ok(success) => success,
            Err(_) => false,
        };

        if is_success {
            let mut message = "Successfully installed ".to_owned();
            message.append(application.as_str());
            output.finish_with_success(&message);
        } else {
            let mut message = "Unable to install ".to_owned();
            message.append(application.as_str());
            output.finish_with_warning(&message);
        }
        proof {
            assert(output.notes() =~= old(output).notes() + item_note_pair(
                winget_note_style(),
                application@,
                is_success,
            ));
        }
        is_success
    }
}

impl PackageManager for WingetPackageManager {
    open spec fn planned_invocations(&self, applications: Seq<Seq<char>>) -> Seq<Invocation> {
        winget_invocations(applications, self.source@)
    }

    open spec fn note_style(&self) -> NoteStyle {
        winget_note_style()
    }

    fn install<C: Command, T: TerminalOutput>(
        &self,
        applications: &Vec<String>,
        command: &mut C,
        output: &mut T,
    ) {
        let ghost initial_invocations = command.invocations();
        let ghost initial_notes = output.notes();
        let ghost items = applications.deep_view();
        let ghost mut outcomes: Seq<bool> = Seq::empty();
        let mut index: usize = 0;
        proof {
            assert(items.take(0) =~= Seq::<Seq<char>>::empty());
            assert(winget_invocations(Seq::empty(), self.source@) =~= Seq::<Invocation>::empty());
            assert(batch_notes(winget_note_style(), Seq::empty(), Seq::empty()) =~= Seq::<
                Note,
            >::empty());
        }
        while index < applications.len()
            invariant
                index <= applications.len(),
                items == applications.deep_view(),
                items.len() == applications@.len(),
                command.invocations() == initial_invocations + winget_invocations(
                    items.take(index as int),
                    self.source@,
                ),
                outcomes.len() == index,
                output.notes() == initial_notes + batch_notes(
                    winget_note_style(),
                    items.take(index as int),
                    outcomes,
                ),
            decreases applications.len() - index,
        {
            let application = &applications[index];
            proof {
                assert(application@ == items[index as int]);
            }
            let ok = self.install_application(application, command, output);
            proof {
                lemma_batch_notes_push(
                    winget_note_style(),
                    items.take(index as int),
                    outcomes,
                    items[index as int],
                    ok,
                );
                assert(items.take(index as int).push(items[index as int]) =~= items.take(
                    index as int + 1,
                ));
                assert(winget_invocations(items.take(index as int + 1), self.source@)
                    =~= winget_invocations(items.take(index as int), self.source@).push(
                    Invocation {
                        tool: "winget"@,
                        arguments: winget_arguments(items[index as int], self.source@),
                    },
                ));
                outcomes = outcomes.push(ok);
            }
            index += 1;
        }
        proof {
            assert(items.take(applications@.len() as int) =~= items);
            assert(exists|witness: Seq<bool>|
                witness.len() == applications.deep_view().len() && output.notes() == initial_notes
                    + batch_notes(self.note_style(), applications.deep_view(), witness)) by {
                assert(outcomes.len() == applications.deep_view().len() && output.notes()
                    == initial_notes + batch_notes(
                    self.note_style(),
                    applications.deep_view(),
                    outcomes,
                ));
            }
        }
    }
}

} // verus!
