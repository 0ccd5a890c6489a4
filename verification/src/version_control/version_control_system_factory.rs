use vstd::prelude::*;

use crate::tool_name::{eq_ignore_ascii_case, tool_name_matches};
use crate::version_control::git_version_control_system::GitVersionControlSystem;

verus! {

/// Resolves a version-control-system name to a constructed handler.
///
/// Name matching is a case-insensitive exact match against the known tool
/// identifiers; the one recognized version control system is `git`.
/// Unknown names — the empty string included — resolve to nothing:
/// "unsupported" is an expected outcome the caller branches on, never an
/// error.  Every successful resolution hands out a freshly constructed,
/// independently owned handler; no handler is cached or shared between
/// calls.
pub trait VersionControlSystemFactory {
    /// Resolve `name` to a version control system downloading into
    /// `destination_folder`.
    fn get_version_control_system(&self, name: &str, destination_folder: &str) -> (result: Option<
        GitVersionControlSystem,
    >)
        ensures
            result is Some <==> eq_ignore_ascii_case(name@, "git"@),
            result matches Some(handler) ==> handler.destination_folder@ == destination_folder@,
    ;
}

/// The factory handing out the supported version control systems.
#[derive(Clone, Copy, Debug)]
pub struct VersionControlSystemFactoryImpl;

impl VersionControlSystemFactoryImpl {
    pub fn new() -> (result: VersionControlSystemFactoryImpl) {
        VersionControlSystemFactoryImpl
    }
}

impl VersionControlSystemFactory for VersionControlSystemFactoryImpl {
    fn get_version_control_system(&self, name: &str, destination_folder: &str) -> (result: Option<
        GitVersionControlSystem,
    >) {
        if tool_name_matches(name, "git") {
            Some(GitVersionControlSystem::new(destination_folder))
        } else {
            None
        }
    }
}

} // verus!
