use upset::command::ExecutionError;
use upset::commands::ScriptedCommand;
use upset::terminal::{NoteKind, RecordingTerminalOutput};
use upset::version_control::{GitVersionControlSystem, VersionControlSystem};

#[test]
fn download_calls_the_git_command_for_each_repository() {
    // Arrange
    let repositories = vec!["repo1".to_string(), "repo2".to_string()];
    let destination_folder = "~/Git-projects".to_string();
    let mut command = ScriptedCommand::new(vec![Ok(true), Ok(true)]);
    let mut output = RecordingTerminalOutput::new();

    // Act
    let sut = GitVersionControlSystem::new(&destination_folder);
    sut.download(&repositories, &mut command, &mut output);

    // Assert
    assert_eq!(command.recorded.len(), repositories.len());
}

#[test]
fn download_calls_the_git_command_with_the_expected_arguments() {
    // Arrange
    let repository = "git@github.com:bartkessels/upset.git";
    let repositories = vec![repository.to_string()];
    let destination_folder = "~/Git-projects".to_string();
    let mut command = ScriptedCommand::new(vec![Ok(true)]);
    let mut output = RecordingTerminalOutput::new();

    // Act
    let sut = GitVersionControlSystem::new(&destination_folder);
    sut.download(&repositories, &mut command, &mut output);

    // Assert
    assert_eq!(command.recorded.len(), 1);
    assert_eq!(command.recorded[0].tool, "git");
    assert_eq!(
        command.recorded[0].arguments,
        vec!["clone".to_string(), repository.to_string()]
    );
}

#[test]
fn git_version_control_system_download_calls_loading_on_the_the_terminal_output_before_the_command_is_being_executed()
 {
    // Arrange
    let repositories = vec!["repository".to_string()];
    let destination_folder = "~/Git-projects".to_string();
    let mut command = ScriptedCommand::new(vec![Ok(true)]);
    let mut output = RecordingTerminalOutput::new();

    // Act
    let sut = GitVersionControlSystem::new(&destination_folder);
    sut.download(&repositories, &mut command, &mut output);

    // Assert: the loading note comes first, before the run's closing note
    assert_eq!(output.entries.len(), 2);
    assert_eq!(output.entries[0].kind, NoteKind::Loading);
    assert_eq!(output.entries[0].message, "Cloning repository");
}

#[test]
fn git_version_control_system_download_calls_the_finish_with_success_on_the_the_terminal_output_when_the_command_succeeded()
 {
    // Arrange
    let repositories = vec!["repository".to_string()];
    let destination_folder = "~/Git-projects".to_string();
    let mut command = ScriptedCommand::new(vec![Ok(true)]);
    let mut output = RecordingTerminalOutput::new();

    // Act
    let sut = GitVersionControlSystem::new(&destination_folder);
    sut.download(&repositories, &mut command, &mut output);

    // Assert
    assert_eq!(output.entries.len(), 2);
    assert_eq!(output.entries[1].kind, NoteKind::Success);
    assert_eq!(output.entries[1].message, "Successfully cloned repository");
}

#[test]
fn download_calls_the_finish_with_warning_on_the_the_terminal_output_when_the_command_fails() {
    // Arrange
    let repositories = vec!["repository".to_string()];
    let destination_folder = "~/Git-projects".to_string();
    let mut command = ScriptedCommand::new(vec![Ok(false)]);
    let mut output = RecordingTerminalOutput::new();

    // Act
    let sut = GitVersionControlSystem::new(&destination_folder);
    sut.download(&repositories, &mut command, &mut output);

    // Assert
    assert_eq!(output.entries.len(), 2);
    assert_eq!(output.entries[1].kind, NoteKind::Warning);
    assert_eq!(output.entries[1].message, "Unable to clone repository");
}

#[test]
fn download_calls_the_finish_with_warning_on_the_the_terminal_output_when_the_command_returns_an_error()
 {
    // Arrange
    let repositories = vec!["repository".to_string()];
    let destination_folder = "~/Git-projects".to_string();
    let mut command = ScriptedCommand::new(vec![Err(ExecutionError::ToolNotFound)]);
    let mut output = RecordingTerminalOutput::new();

    // Act
    let sut = GitVersionControlSystem::new(&destination_folder);
    sut.download(&repositories, &mut command, &mut output);

    // Assert
    assert_eq!(output.entries.len(), 2);
    assert_eq!(output.entries[1].kind, NoteKind::Warning);
    assert_eq!(output.entries[1].message, "Unable to clone repository");
}
