use vstd::prelude::*;

use crate::file_download::wget_file_download::WgetFileDownload;
use crate::tool_name::{eq_ignore_ascii_case, tool_name_matches};

verus! {

/// Resolves a download-manager name to a constructed handler.
///
/// Name matching is a case-insensitive exact match against the known tool
/// identifiers; the one recognized download manager is `wget`.  Unknown
/// names — the empty string included — resolve to nothing: "unsupported"
/// is an expected outcome the caller branches on, never an error.  Every
/// successful resolution hands out a freshly constructed, independently
/// owned handler; no handler is cached or shared between calls.
pub trait FileDownloadFactory {
    /// Resolve `name` to a download manager downloading into
    /// `destination_folder`.
    fn get_file_downloader(&self, name: &str, destination_folder: &str) -> (result: Option<
        WgetFileDownload,
    >)
        ensures
            result is Some <==> eq_ignore_ascii_case(name@, "wget"@),
            result matches Some(handler) ==> handler.destination_folder@ == destination_folder@,
    ;
}

/// The factory handing out the supported download managers.
#[derive(Clone, Copy, Debug)]
pub struct FileDownloadFactoryImpl;

impl FileDownloadFactoryImpl {
    pub fn new() -> (result: FileDownloadFactoryImpl) {
        FileDownloadFactoryImpl
    }
}

impl FileDownloadFactory for FileDownloadFactoryImpl {
    fn get_file_downloader(&self, name: &str, destination_folder: &str) -> (result: Option<
        WgetFileDownload,
    >) {
        if tool_name_matches(name, "wget") {
            Some(WgetFileDownload::new(destination_folder))
        } else {
            None
        }
    }
}

} // verus!
