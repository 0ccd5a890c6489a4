use vstd::prelude::*;

use crate::package_manager::winget_package_manager::WingetPackageManager;
use crate::tool_name::{eq_ignore_ascii_case, tool_name_matches};

verus! {

/// Resolves a package-manager name to a constructed handler.
///
/// Name matching is a case-insensitive exact match against the known tool
/// identifiers; the one recognized package manager is `winget`.  Unknown
/// names — the empty string included — resolve to nothing: "unsupported"
/// is an expected outcome the caller branches on, never an error.  Every
/// successful resolution hands out a freshly constructed, independently
/// owned handler; no handler is cached or shared between calls.
pub trait PackageManagerFactory {
    /// Resolve `name` to a package manager installing from `source`.
    fn get_package_manager(&self, name: &String, source: &String) -> (result: Option<
        WingetPackageManager,
    >)
        ensures
            result is Some <==> eq_ignore_ascii_case(name@, "winget"@),
            result matches Some(handler) ==> handler.source@ == source@,
    ;
}

/// The factory handing out the supported package managers.
#[derive(Clone, Copy, Debug)]
pub struct PackageManagerFactoryImpl;

impl PackageManagerFactoryImpl {
    pub fn new() -> (result: PackageManagerFactoryImpl) {
        PackageManagerFactoryImpl
    }
}

impl PackageManagerFactory for PackageManagerFactoryImpl {
    fn get_package_manager(&self, name: &String, source: &String) -> (result: Option<
        WingetPackageManager,
    >) {
        if tool_name_matches(name.as_str(), "winget") {
            Some(WingetPackageManager::new(source.as_str()))
        } else {
            None
        }
    }
}

} // verus!
