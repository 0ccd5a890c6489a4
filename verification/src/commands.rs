use vstd::prelude::*;

use crate::command::{Command, ExecutionError, Invocation};

verus! {

/// One run a [`ScriptedCommand`] was asked to make, kept as plain values so
/// tests can inspect it.
#[derive(Debug, PartialEq, Eq)]
pub struct RecordedInvocation {
    pub tool: String,
    pub arguments: Vec<String>,
}

impl View for RecordedInvocation {
    type V = Invocation;

    open spec fn view(&self) -> Invocation {
        Invocation { tool: self.tool@, arguments: self.arguments.deep_view() }
    }
}

/// A command executor that spawns nothing: it records every requested run
/// and answers with outcomes taken from a fixed script, in order.  Once the
/// script is exhausted, every further run reports success.
///
/// This is the executor the test-suite drives the handlers with; the
/// process-spawning executor lives with the binary, outside the verified
/// library.
pub struct ScriptedCommand {
    pub script: Vec<Result<bool, ExecutionError>>,
    pub next: usize,
    pub recorded: Vec<RecordedInvocation>,
}

impl ScriptedCommand {
    /// An executor with no recorded runs whose first answers are `script`.
    pub fn new(script: Vec<Result<bool, ExecutionError>>) -> (result: ScriptedCommand)
        ensures
            result.invocations() == Seq::<Invocation>::empty(),
            result.script == script,
            result.next == 0,
    {
        let command = ScriptedCommand { script, next: 0, recorded: Vec::new() };
        proof {
            assert(command.recorded@.map_values(|r: RecordedInvocation| r@) =~= Seq::<
                Invocation,
            >::empty());
        }
        command
    }
}

impl Command for ScriptedCommand {
    open spec fn invocations(&self) -> Seq<Invocation> {
        self.recorded@.map_values(|r: RecordedInvocation| r@)
    }

    fn command_exists(&self, _name: &str) -> bool {
        true
    }

    fn execute(&mut self, tool: &str, arguments: &Vec<String>) -> (result: Result<
        bool,
        ExecutionError,
    >)
        ensures
            final(self).script == old(self).script,
            result == (if old(self).next < old(self).script.len() {
                old(self).script[old(self).next as int]
            } else {
                Ok::<bool, ExecutionError>(true)
            }),
            final(self).next == (if old(self).next < old(self).script.len() {
                old(self).next + 1
            } else {
                old(self).next as int
            }),
    {
        let entry = RecordedInvocation { tool: tool.to_owned(), arguments: arguments.clone() };
        proof {
            assert(entry.arguments.deep_view() =~= arguments.deep_view());
            assert(entry@ == Invocation { tool: tool@, arguments: arguments.deep_view() });
        }
        self.recorded.push(entry);
        proof {
            assert(self.recorded@.map_values(|r: RecordedInvocation| r@) =~= old(
                self,
            ).recorded@.map_values(|r: RecordedInvocation| r@).push(
                Invocation { tool: tool@, arguments: arguments.deep_view() },
            ));
        }
        if self.next < self.script.len() {
            let outcome = self.script[self.next];
            self.next = self.next + 1;
            outcome
        } else {
            Ok(true)
        }
    }
}

} // verus!
