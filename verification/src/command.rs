use vstd::prelude::*;

verus! {

/// One run of an external tool, as the contracts record it: the tool's name
/// and the full argument vector it was invoked with.
pub struct Invocation {
    pub tool: Seq<char>,
    pub arguments: Seq<Seq<char>>,
}

/// Why running an external tool failed before it could report an exit
/// status: the tool is not present, or it was found but could not be
/// spawned.  A nonzero exit status is not an error; it is reported as
/// `Ok(false)`.
#[derive(Clone, Copy, Debug, PartialEq, Eq, Structural)]
pub enum ExecutionError {
    ToolNotFound,
    ExecutionFailed,
}

/// Wrapper around invoking one named external executable.
///
/// The trait carries a ghost history of every run made through it, so that
/// callers can state exactly which invocations a batch of work performs.
/// Implementations decide what a run returns — an external process exits
/// however it exits — so `execute` promises nothing about its result, only
/// that the run is recorded.
pub trait Command {
    /// Ghost history of all runs made through this executor, oldest first.
    /// An executor that keeps no history — the process-spawning one the
    /// binary supplies — may leave the default, an empty history.
    open spec fn invocations(&self) -> Seq<Invocation> {
        Seq::empty()
    }

    /// Check if a specific command exists on this machine.
    fn command_exists(&self, name: &str) -> bool;

    /// Run `tool` with `arguments`.
    ///
    /// Returns an error when the tool does not exist or cannot be spawned;
    /// otherwise returns whether the tool exited successfully.
    fn execute(&mut self, tool: &str, arguments: &Vec<String>) -> (result: Result<
        bool,
        ExecutionError,
    >)
        ensures
            final(self).invocations() == old(self).invocations().push(
                Invocation { tool: tool@, arguments: arguments.deep_view() },
            ),
    ;
}

} // verus!
