use upset::commands::ScriptedCommand;
use upset::configuration::{
    ConfigFile, Configuration, PackageConfiguration, SchemaVersion, VersionControlConfiguration,
};
use upset::file_download::FileDownloadFactoryImpl;
use upset::package_manager::{PackageManager, PackageManagerFactory, PackageManagerFactoryImpl};
use upset::parser::{Parser, ParserFactory, Version100Parser};
use upset::terminal::RecordingTerminalOutput;
use upset::version_control::VersionControlSystemFactoryImpl;

fn make_parser() -> Version100Parser {
    Version100Parser::new(
        PackageManagerFactoryImpl::new(),
        VersionControlSystemFactoryImpl::new(),
        FileDownloadFactoryImpl::new(),
    )
}

#[test]
fn packages_document_drives_winget_once_per_application_with_exact_arguments() {
    // The full scenario: a v1.0 document with one winget package entry for
    // the msstore source and two applications.
    let config_file = ConfigFile {
        version: SchemaVersion { major: 1, minor: 0 },
        configuration: Configuration {
            packages: Some(vec![PackageConfiguration {
                package_manager: "winget".to_string(),
                source: "msstore".to_string(),
                applications: vec!["upset".to_string(), "git.git".to_string()],
            }]),
            version_control: None,
            downloads: None,
        },
    };
    let factory = ParserFactory::new(
        PackageManagerFactoryImpl::new(),
        VersionControlSystemFactoryImpl::new(),
        FileDownloadFactoryImpl::new(),
    );
    let parser = factory.get_parser(&config_file).unwrap();

    let mut command = ScriptedCommand::new(vec![Ok(true), Ok(true)]);
    let mut output = RecordingTerminalOutput::new();
    parser.parse(&config_file.configuration, &mut command, &mut output);

    assert_eq!(command.recorded.len(), 2);
    assert_eq!(
        command.recorded[0].arguments,
        vec![
            "install".to_string(),
            "upset".to_string(),
            "-s".to_string(),
            "msstore".to_string(),
            "--disable-interactivity".to_string(),
        ]
    );
    assert_eq!(
        command.recorded[1].arguments,
        vec![
            "install".to_string(),
            "git.git".to_string(),
            "-s".to_string(),
            "msstore".to_string(),
            "--disable-interactivity".to_string(),
        ]
    );
}

#[test]
fn unsupported_schema_version_fails_and_processes_no_section() {
    // Schema version 2.0: the parser factory fails, carrying the offending
    // version, and no section is ever processed.
    let config_file = ConfigFile {
        version: SchemaVersion { major: 2, minor: 0 },
        configuration: Configuration {
            packages: Some(vec![PackageConfiguration {
                package_manager: "winget".to_string(),
                source: "msstore".to_string(),
                applications: vec!["upset".to_string()],
            }]),
            version_control: None,
            downloads: None,
        },
    };
    let factory = ParserFactory::new(
        PackageManagerFactoryImpl::new(),
        VersionControlSystemFactoryImpl::new(),
        FileDownloadFactoryImpl::new(),
    );
    let result = factory.get_parser(&config_file);
    assert!(result.is_err());
    assert_eq!(
        result.unwrap_err().version,
        SchemaVersion { major: 2, minor: 0 }
    );
}

#[test]
fn mercurial_entry_is_skipped_with_zero_notifications_and_zero_runs() {
    // A repository entry naming mercurial resolves to nothing: the entry is
    // skipped with no notification and no command run.
    let config = Configuration {
        packages: None,
        version_control: Some(vec![VersionControlConfiguration {
            vcs: "mercurial".to_string(),
            destination_folder: "~/Git-projects".to_string(),
            repositories: vec!["repo".to_string()],
        }]),
        downloads: None,
    };
    let mut command = ScriptedCommand::new(vec![]);
    let mut output = RecordingTerminalOutput::new();

    let sut = make_parser();
    sut.parse(&config, &mut command, &mut output);

    assert!(command.recorded.is_empty());
    assert!(output.entries.is_empty());
}

#[test]
fn full_document_processes_sections_in_document_order() {
    // Packages come before version control, and version control before
    // downloads, whatever the runs' outcomes are.
    let config = Configuration {
        packages: Some(vec![PackageConfiguration {
            package_manager: "winget".to_string(),
            source: "msstore".to_string(),
            applications: vec!["upset".to_string()],
        }]),
        version_control: Some(vec![VersionControlConfiguration {
            vcs: "git".to_string(),
            destination_folder: "~/Git-projects".to_string(),
            repositories: vec!["repo".to_string()],
        }]),
        downloads: Some(vec![upset::configuration::DownloadConfiguration {
            download_manager: "wget".to_string(),
            destination_folder: "~/Downloads".to_string(),
            files: vec!["https://bartkessels.net/download/upset".to_string()],
        }]),
    };
    let mut command = ScriptedCommand::new(vec![Ok(true), Ok(false), Ok(true)]);
    let mut output = RecordingTerminalOutput::new();

    let sut = make_parser();
    sut.parse(&config, &mut command, &mut output);

    assert_eq!(command.recorded.len(), 3);
    assert_eq!(command.recorded[0].tool, "winget");
    assert_eq!(command.recorded[1].tool, "git");
    assert_eq!(command.recorded[2].tool, "wget");
    assert_eq!(output.entries.len(), 6);
    assert_eq!(output.entries[0].message, "Installing upset");
    assert_eq!(output.entries[1].message, "Successfully installed upset");
    assert_eq!(output.entries[2].message, "Cloning repo");
    assert_eq!(output.entries[3].message, "Unable to clone repo");
    assert_eq!(
        output.entries[4].message,
        "Downloading https://bartkessels.net/download/upset"
    );
    assert_eq!(
        output.entries[5].message,
        "Successfully downloaded https://bartkessels.net/download/upset"
    );
}

#[test]
fn resolving_the_same_tool_twice_yields_independent_handlers() {
    // Resolving a name twice gives two handlers with no shared state: each
    // one works on its own executor and output without affecting the other.
    let factory = PackageManagerFactoryImpl::new();
    let name = "winget".to_string();
    let source = "msstore".to_string();

    let first = factory.get_package_manager(&name, &source).unwrap();
    let second = factory.get_package_manager(&name, &source).unwrap();

    let applications = vec!["upset".to_string()];
    let mut first_command = ScriptedCommand::new(vec![Ok(true)]);
    let mut first_output = RecordingTerminalOutput::new();
    first.install(&applications, &mut first_command, &mut first_output);

    let mut second_command = ScriptedCommand::new(vec![Ok(false)]);
    let mut second_output = RecordingTerminalOutput::new();
    second.install(&applications, &mut second_command, &mut second_output);

    assert_eq!(first_command.recorded.len(), 1);
    assert_eq!(second_command.recorded.len(), 1);
    assert_eq!(first_command.recorded, second_command.recorded);
    assert_eq!(first_output.entries.len(), 2);
    assert_eq!(second_output.entries.len(), 2);
    assert_ne!(first_output.entries[1], second_output.entries[1]);
}

#[test]
fn tool_names_match_case_insensitively() {
    let factory = PackageManagerFactoryImpl::new();
    let source = "msstore".to_string();
    assert!(factory
        .get_package_manager(&"WinGet".to_string(), &source)
        .is_some());
    assert!(factory
        .get_package_manager(&"WINGET".to_string(), &source)
        .is_some());
    assert!(factory
        .get_package_manager(&"winget ".to_string(), &source)
        .is_none());
}

#[test]
fn installing_an_empty_application_list_does_nothing() {
    let handler = upset::package_manager::WingetPackageManager::new("msstore");
    let applications: Vec<String> = vec![];
    let mut command = ScriptedCommand::new(vec![]);
    let mut output = RecordingTerminalOutput::new();
    handler.install(&applications, &mut command, &mut output);
    assert!(command.recorded.is_empty());
    assert!(output.entries.is_empty());
}
