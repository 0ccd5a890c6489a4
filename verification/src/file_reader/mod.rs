mod yaml_file_reader;

pub use yaml_file_reader::YamlFileReader;
