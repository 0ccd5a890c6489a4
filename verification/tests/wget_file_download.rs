use upset::command::ExecutionError;
use upset::commands::ScriptedCommand;
use upset::file_download::{FileDownload, WgetFileDownload};
use upset::terminal::{NoteKind, RecordingTerminalOutput};

#[test]
fn download_calls_the_wget_command_for_each_file() {
    // Arrange
    let remote_sources = vec!["remote1".to_string(), "remote2".to_string()];
    let destination_folder = "~/Downloads";
    let mut command = ScriptedCommand::new(vec![Ok(true), Ok(true)]);
    let mut output = RecordingTerminalOutput::new();

    // Act
    let sut = WgetFileDownload::new(destination_folder);
    sut.download(&remote_sources, &mut command, &mut output);

    // Assert
    assert_eq!(command.recorded.len(), remote_sources.len());
}

#[test]
fn install_calls_the_wget_command_with_the_expected_arguments() {
    // Arrange
    let remote_source = "https://github.com/bartkessels/upset/release.zip";
    let remote_sources = vec![remote_source.to_string()];
    let destination_folder = "~/Downloads";
    let mut command = ScriptedCommand::new(vec![Ok(true)]);
    let mut output = RecordingTerminalOutput::new();

    // Act
    let sut = WgetFileDownload::new(destination_folder);
    sut.download(&remote_sources, &mut command, &mut output);

    // Assert
    assert_eq!(command.recorded.len(), 1);
    assert_eq!(command.recorded[0].tool, "wget");
    assert_eq!(
        command.recorded[0].arguments,
        vec![
            remote_source.to_string(),
            "-O".to_string(),
            destination_folder.to_string(),
        ]
    );
}

#[test]
fn wget_file_download_download_calls_loading_on_the_the_terminal_output_before_the_command_is_being_executed()
 {
    // Arrange
    let remote_source = "https://github.com/bartkessels/upset/release.zip";
    let remote_sources = vec![remote_source.to_string()];
    let destination_folder = "~/Downloads";
    let mut command = ScriptedCommand::new(vec![Ok(true)]);
    let mut output = RecordingTerminalOutput::new();

    // Act
    let sut = WgetFileDownload::new(destination_folder);
    sut.download(&remote_sources, &mut command, &mut output);

    // Assert: the loading note comes first, before the run's closing note
    assert_eq!(output.entries.len(), 2);
    assert_eq!(output.entries[0].kind, NoteKind::Loading);
    assert_eq!(
        output.entries[0].message,
        format!("Downloading {}", remote_source)
    );
}

#[test]
fn wget_file_download_download_calls_the_finish_with_success_on_the_the_terminal_output_when_the_command_succeeded()
 {
    // Arrange
    let remote_source = "https://github.com/bartkessels/upset/release.zip";
    let remote_sources = vec![remote_source.to_string()];
    let destination_folder = "~/Downloads";
    let mut command = ScriptedCommand::new(vec![Ok(true)]);
    let mut output = RecordingTerminalOutput::new();

    // Act
    let sut = WgetFileDownload::new(destination_folder);
    sut.download(&remote_sources, &mut command, &mut output);

    // Assert
    assert_eq!(output.entries.len(), 2);
    assert_eq!(output.entries[1].kind, NoteKind::Success);
    assert_eq!(
        output.entries[1].message,
        format!("Successfully downloaded {}", remote_source)
    );
}

#[test]
fn download_calls_finish_with_warning_on_the_the_terminal_output_when_the_command_fails() {
    // Arrange
    let remote_source = "https://github.com/bartkessels/upset/release.zip";
    let remote_sources = vec![remote_source.to_string()];
    let destination_folder = "~/Downloads";
    let mut command = ScriptedCommand::new(vec![Ok(false)]);
    let mut output = RecordingTerminalOutput::new();

    // Act
    let sut = WgetFileDownload::new(destination_folder);
    sut.download(&remote_sources, &mut command, &mut output);

    // Assert
    assert_eq!(output.entries.len(), 2);
    assert_eq!(output.entries[1].kind, NoteKind::Warning);
    assert_eq!(
        output.entries[1].message,
        format!("Unable to download {}", remote_source)
    );
}

#[test]
fn download_calls_finish_with_warning_on_the_the_terminal_output_when_the_command_returns_an_error()
{
    // Arrange
    let remote_source = "https://github.com/bartkessels/upset/release.zip";
    let remote_sources = vec![remote_source.to_string()];
    let destination_folder = "~/Downloads";
    let mut command = ScriptedCommand::new(vec![Err(ExecutionError::ExecutionFailed)]);
    let mut output = RecordingTerminalOutput::new();

    // Act
    let sut = WgetFileDownload::new(destination_folder);
    sut.download(&remote_sources, &mut command, &mut output);

    // Assert
    assert_eq!(output.entries.len(), 2);
    assert_eq!(output.entries[1].kind, NoteKind::Warning);
    assert_eq!(
        output.entries[1].message,
        format!("Unable to download {}", remote_source)
    );
}
