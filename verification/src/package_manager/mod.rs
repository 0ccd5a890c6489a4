mod package_manager;
mod package_manager_factory;
mod winget_package_manager;

pub use package_manager::PackageManager;
pub use package_manager_factory::PackageManagerFactory;
pub use package_manager_factory::PackageManagerFactoryImpl;
pub use winget_package_manager::winget_arguments;
pub use winget_package_manager::winget_invocations;
pub use winget_package_manager::winget_note_style;
pub use winget_package_manager::WingetPackageManager;
