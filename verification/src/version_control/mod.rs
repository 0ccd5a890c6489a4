mod git_version_control_system;
mod version_control_system;
mod version_control_system_factory;

pub use git_version_control_system::git_arguments;
pub use git_version_control_system::git_invocations;
pub use git_version_control_system::git_note_style;
pub use git_version_control_system::GitVersionControlSystem;
pub use version_control_system::VersionControlSystem;
pub use version_control_system_factory::VersionControlSystemFactory;
pub use version_control_system_factory::VersionControlSystemFactoryImpl;
