use upset::commands::ScriptedCommand;
use upset::configuration::{
    Configuration, DownloadConfiguration, PackageConfiguration, VersionControlConfiguration,
};
use upset::file_download::FileDownloadFactoryImpl;
use upset::package_manager::PackageManagerFactoryImpl;
use upset::parser::{Parser, Version100Parser};
use upset::terminal::RecordingTerminalOutput;
use upset::version_control::VersionControlSystemFactoryImpl;

fn make_parser() -> Version100Parser {
    Version100Parser::new(
        PackageManagerFactoryImpl::new(),
        VersionControlSystemFactoryImpl::new(),
        FileDownloadFactoryImpl::new(),
    )
}

#[test]
fn parse_should_parse_the_packages_when_they_are_available() {
    // Arrange
    let config = Configuration {
        packages: Some(vec![PackageConfiguration {
            package_manager: "winget".to_string(),
            source: "msstore".to_string(),
            applications: vec!["upset".to_string(), "ItDepends".to_string()],
        }]),
        version_control: None,
        downloads: None,
    };
    let mut command = ScriptedCommand::new(vec![Ok(true), Ok(true)]);
    let mut output = RecordingTerminalOutput::new();

    // Act
    let sut = make_parser();
    sut.parse(&config, &mut command, &mut output);

    // Assert: one winget run per listed application
    assert_eq!(command.recorded.len(), 2);
    assert_eq!(command.recorded[0].tool, "winget");
    assert!(command.recorded[0].arguments.contains(&"upset".to_string()));
    assert_eq!(command.recorded[1].tool, "winget");
    assert!(command.recorded[1]
        .arguments
        .contains(&"ItDepends".to_string()));
}

#[test]
fn parse_should_parse_the_version_control_systems_when_they_are_available() {
    // Arrange
    let config = Configuration {
        packages: None,
        version_control: Some(vec![VersionControlConfiguration {
            vcs: "git".to_string(),
            destination_folder: "~/Git-projects".to_string(),
            repositories: vec![
                "git@github.com:bartkessels/upset.git".to_string(),
                "git@github.com:bartkessels/it-depends.git".to_string(),
            ],
        }]),
        downloads: None,
    };
    let mut command = ScriptedCommand::new(vec![Ok(true), Ok(true)]);
    let mut output = RecordingTerminalOutput::new();

    // Act
    let sut = make_parser();
    sut.parse(&config, &mut command, &mut output);

    // Assert: one git run per listed repository
    assert_eq!(command.recorded.len(), 2);
    assert_eq!(command.recorded[0].tool, "git");
    assert_eq!(
        command.recorded[0].arguments,
        vec![
            "clone".to_string(),
            "git@github.com:bartkessels/upset.git".to_string(),
        ]
    );
    assert_eq!(command.recorded[1].tool, "git");
    assert_eq!(
        command.recorded[1].arguments,
        vec![
            "clone".to_string(),
            "git@github.com:bartkessels/it-depends.git".to_string(),
        ]
    );
}

#[test]
fn parse_should_parse_the_file_downloads_when_they_are_available() {
    // Arrange
    let config = Configuration {
        packages: None,
        version_control: None,
        downloads: Some(vec![DownloadConfiguration {
            download_manager: "wget".to_string(),
            destination_folder: "~/Downloads".to_string(),
            files: vec![
                "https://bartkessels.net/download/upset".to_string(),
                "https://bartkessels.net/download/it-depends".to_string(),
            ],
        }]),
    };
    let mut command = ScriptedCommand::new(vec![Ok(true), Ok(true)]);
    let mut output = RecordingTerminalOutput::new();

    // Act
    let sut = make_parser();
    sut.parse(&config, &mut command, &mut output);

    // Assert: one wget run per listed file
    assert_eq!(command.recorded.len(), 2);
    assert_eq!(command.recorded[0].tool, "wget");
    assert!(command.recorded[0]
        .arguments
        .contains(&"https://bartkessels.net/download/upset".to_string()));
    assert_eq!(command.recorded[1].tool, "wget");
    assert!(command.recorded[1]
        .arguments
        .contains(&"https://bartkessels.net/download/it-depends".to_string()));
}

#[test]
fn should_not_parse_anything_when_the_configuration_is_empty() {
    // Arrange
    let config = Configuration {
        packages: None,
        version_control: None,
        downloads: None,
    };
    let mut command = ScriptedCommand::new(vec![]);
    let mut output = RecordingTerminalOutput::new();

    // Act
    let sut = make_parser();
    sut.parse(&config, &mut command, &mut output);

    // Assert
    assert!(command.recorded.is_empty());
    assert!(output.entries.is_empty());
}
