use upset::file_download::{FileDownloadFactory, FileDownloadFactoryImpl};

#[test]
fn get_file_download_returns_none_for_empty_string() {
    // Arrange
    let name = "";
    let destination_folder = ".";

    // Act
    let sut = FileDownloadFactoryImpl::new();
    let result = sut.get_file_downloader(name, destination_folder);

    // Assert
    assert!(result.is_none());
}

#[test]
fn get_file_download_returns_none_for_unsupported_file_downloader() {
    // Arrange
    let name = "unsupported download tool";
    let destination_folder = ".";

    // Act
    let sut = FileDownloadFactoryImpl::new();
    let result = sut.get_file_downloader(name, destination_folder);

    // Assert
    assert!(result.is_none());
}

#[test]
fn get_file_download_returns_wget_for_wget_file_downloader() {
    // Arrange
    let name = "wget";
    let destination_folder = ".";

    // Act
    let sut = FileDownloadFactoryImpl::new();
    let result = sut.get_file_downloader(name, destination_folder);

    // Assert
    assert!(result.is_some());
    assert_eq!(result.unwrap().destination_folder, ".");
}
