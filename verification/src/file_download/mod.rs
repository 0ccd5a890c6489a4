mod file_download;
mod file_download_factory;
mod wget_file_download;

pub use file_download::FileDownload;
pub use file_download_factory::FileDownloadFactory;
pub use file_download_factory::FileDownloadFactoryImpl;
pub use wget_file_download::wget_arguments;
pub use wget_file_download::wget_invocations;
pub use wget_file_download::wget_note_style;
pub use wget_file_download::WgetFileDownload;
