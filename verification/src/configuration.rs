use vstd::prelude::*;

verus! {

/// Schema version declared at the top of a configuration document, written
/// as a major and a minor component (the document form `1.0` is major 1,
/// minor 0).
#[derive(Clone, Copy, Debug, PartialEq, Eq, Structural)]
pub struct SchemaVersion {
    pub major: u32,
    pub minor: u32,
}

/// A whole configuration document: the declared schema version plus the
/// configuration body.
#[derive(Debug, PartialEq)]
pub struct ConfigFile {
    pub version: SchemaVersion,
    pub configuration: Configuration,
}

/// The body of a configuration document.  Each section is optional; an
/// absent section means "do nothing for that capability".
#[derive(Debug, PartialEq)]
pub struct Configuration {
    pub packages: Option<Vec<PackageConfiguration>>,
    pub version_control: Option<Vec<VersionControlConfiguration>>,
    pub downloads: Option<Vec<DownloadConfiguration>>,
}

/// One entry of the `packages` section: a package manager, the source it
/// installs from, and the applications to install.
#[derive(Debug, PartialEq)]
pub struct PackageConfiguration {
    pub package_manager: String,
    pub source: String,
    pub applications: Vec<String>,
}

/// One entry of the `version_control` section: a version control system, a
/// destination folder, and the repositories to fetch.
#[derive(Debug, PartialEq)]
pub struct VersionControlConfiguration {
    pub vcs: String,
    pub destination_folder: String,
    pub repositories: Vec<String>,
}

/// One entry of the `downloads` section: a download manager, a destination
/// folder, and the files to download.
#[derive(Debug, PartialEq)]
pub struct DownloadConfiguration {
    pub download_manager: String,
    pub destination_folder: String,
    pub files: Vec<String>,
}

/// Mathematical model of a [`PackageConfiguration`].
pub struct PackageConfigurationView {
    pub package_manager: Seq<char>,
    pub source: Seq<char>,
    pub applications: Seq<Seq<char>>,
}

/// Mathematical model of a [`VersionControlConfiguration`].
pub struct VersionControlConfigurationView {
    pub vcs: Seq<char>,
    pub destination_folder: Seq<char>,
    pub repositories: Seq<Seq<char>>,
}

/// Mathematical model of a [`DownloadConfiguration`].
pub struct DownloadConfigurationView {
    pub download_manager: Seq<char>,
    pub destination_folder: Seq<char>,
    pub files: Seq<Seq<char>>,
}

/// Mathematical model of a [`Configuration`].
pub struct ConfigurationView {
    pub packages: Option<Seq<PackageConfigurationView>>,
    pub version_control: Option<Seq<VersionControlConfigurationView>>,
    pub downloads: Option<Seq<DownloadConfigurationView>>,
}

/// Mathematical model of a [`ConfigFile`].
pub struct ConfigFileView {
    pub version: SchemaVersion,
    pub configuration: ConfigurationView,
}

impl View for PackageConfiguration {
    type V = PackageConfigurationView;

    open spec fn view(&self) -> PackageConfigurationView {
        PackageConfigurationView {
            package_manager: self.package_manager@,
            source: self.source@,
            applications: self.applications.deep_view(),
        }
    }
}

impl DeepView for PackageConfiguration {
    type V = PackageConfigurationView;

    open spec fn deep_view(&self) -> PackageConfigurationView {
        self.view()
    }
}

impl View for VersionControlConfiguration {
    type V = VersionControlConfigurationView;

    open spec fn view(&self) -> VersionControlConfigurationView {
        VersionControlConfigurationView {
            vcs: self.vcs@,
            destination_folder: self.destination_folder@,
            repositories: self.repositories.deep_view(),
        }
    }
}

impl DeepView for VersionControlConfiguration {
    type V = VersionControlConfigurationView;

    open spec fn deep_view(&self) -> VersionControlConfigurationView {
        self.view()
    }
}

impl View for DownloadConfiguration {
    type V = DownloadConfigurationView;

    open spec fn view(&self) -> DownloadConfigurationView {
        DownloadConfigurationView {
            download_manager: self.download_manager@,
            destination_folder: self.destination_folder@,
            files: self.files.deep_view(),
        }
    }
}

impl DeepView for DownloadConfiguration {
    type V = DownloadConfigurationView;

    open spec fn deep_view(&self) -> DownloadConfigurationView {
        self.view()
    }
}

impl View for Configuration {
    type V = ConfigurationView;

    open spec fn view(&self) -> ConfigurationView {
        ConfigurationView {
            packages: match self.packages {
                Some(ref entries) => Some(entries.deep_view()),
                None => None,
            },
            version_control: match self.version_control {
                Some(ref entries) => Some(entries.deep_view()),
                None => None,
            },
            downloads: match self.downloads {
                Some(ref entries) => Some(entries.deep_view()),
                None => None,
            },
        }
    }
}

impl View for ConfigFile {
    type V = ConfigFileView;

    open spec fn view(&self) -> ConfigFileView {
        ConfigFileView { version: self.version, configuration: self.configuration@ }
    }
}

} // verus!
