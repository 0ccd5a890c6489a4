mod parser;
mod parser_factory;
mod version_100_parser;

pub use parser::Parser;
pub use parser_factory::ParserFactory;
pub use parser_factory::UnsupportedVersionError;
pub use version_100_parser::configuration_invocations;
pub use version_100_parser::configuration_notes;
pub use version_100_parser::download_entries;
pub use version_100_parser::download_entry_invocations;
pub use version_100_parser::download_entry_notes;
pub use version_100_parser::download_entry_outcomes_match;
pub use version_100_parser::download_entry_supported;
pub use version_100_parser::downloads_invocations;
pub use version_100_parser::downloads_notes;
pub use version_100_parser::downloads_outcomes_match;
pub use version_100_parser::lemma_empty_configuration_inert;
pub use version_100_parser::package_entry_invocations;
pub use version_100_parser::package_entry_notes;
pub use version_100_parser::package_entry_outcomes_match;
pub use version_100_parser::package_entry_supported;
pub use version_100_parser::packages_entries;
pub use version_100_parser::packages_invocations;
pub use version_100_parser::packages_notes;
pub use version_100_parser::packages_outcomes_match;
pub use version_100_parser::version_control_entries;
pub use version_100_parser::version_control_entry_invocations;
pub use version_100_parser::version_control_entry_notes;
pub use version_100_parser::version_control_entry_outcomes_match;
pub use version_100_parser::version_control_entry_supported;
pub use version_100_parser::version_control_invocations;
pub use version_100_parser::version_control_notes;
pub use version_100_parser::version_control_outcomes_match;
pub use version_100_parser::Version100Parser;
