use vstd::prelude::*;

use crate::configuration::{ConfigFile, SchemaVersion};
use crate::file_download::FileDownloadFactoryImpl;
use crate::package_manager::PackageManagerFactoryImpl;
use crate::parser::version_100_parser::Version100Parser;
use crate::version_control::VersionControlSystemFactoryImpl;

verus! {

/// Error of the parser factory: the configuration document declares a
/// schema version no parser supports.  Carries the offending version for
/// diagnostics.
#[derive(Clone, Copy, Debug, PartialEq, Eq, Structural)]
pub struct UnsupportedVersionError {
    pub version: SchemaVersion,
}

/// Selects the configuration parser matching a document's declared schema
/// version.
pub struct ParserFactory {
    pub package_manager_factory: PackageManagerFactoryImpl,
    pub version_control_system_factory: VersionControlSystemFactoryImpl,
    pub file_download_factory: FileDownloadFactoryImpl,
}

impl ParserFactory {
    /// A factory whose parsers resolve tools through the given
    /// capability factories.
    pub fn new(
        package_manager_factory: PackageManagerFactoryImpl,
        version_control_system_factory: VersionControlSystemFactoryImpl,
        file_download_factory: FileDownloadFactoryImpl,
    ) -> (result: ParserFactory)
        ensures
            result.package_manager_factory == package_manager_factory,
            result.version_control_system_factory == version_control_system_factory,
            result.file_download_factory == file_download_factory,
    {
        ParserFactory {
            package_manager_factory,
            version_control_system_factory,
            file_download_factory,
        }
    }

    /// Select the parser for the document's declared schema version.
    /// Exactly one rule today: version 1.0 selects the v1.0 parser; any
    /// other version fails, and no section of such a document is ever
    /// processed.
    pub fn get_parser(&self, config_file: &ConfigFile) -> (result: Result<
        Version100Parser,
        UnsupportedVersionError,
    >)
        ensures
            result is Ok <==> config_file.version == (SchemaVersion { major: 1, minor: 0 }),
            result matches Ok(parser) ==> {
                &&& parser.package_manager_factory == self.package_manager_factory
                &&& parser.version_control_system_factory == self.version_control_system_factory
                &&& parser.file_download_factory == self.file_download_factory
            },
            result matches Err(error) ==> error.version == config_file.version,
    {
        if config_file.version.major == 1 && config_file.version.minor == 0 {
            Ok(
                Version100Parser::new(
                    self.package_manager_factory,
                    self.version_control_system_factory,
                    self.file_download_factory,
                ),
            )
        } else {
            Err(UnsupportedVersionError { version: config_file.version })
        }
    }
}

} // verus!
