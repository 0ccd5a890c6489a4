use vstd::prelude::*;

verus! {

/// Reader of YAML configuration documents.
///
/// Opening the file and decoding its YAML into a typed
/// [`ConfigFile`](crate::configuration::ConfigFile) are input/output and
/// live with the binary; a failure to read is reported there as "file
/// unreadable", a failure to decode as "malformed content", and either one
/// is fatal to the whole run.  The library consumes the decoded document
/// through the parser factory.
pub struct YamlFileReader;

impl YamlFileReader {
    pub fn new() -> (result: YamlFileReader) {
        YamlFileReader
    }
}

} // verus!
