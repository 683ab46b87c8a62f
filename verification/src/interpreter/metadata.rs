pub mod blob_stream;
pub mod coded_kind;
pub mod compressed_stream;
pub mod flag_info;
pub mod image_cor20_header;
pub mod image_data_directory;
pub mod image_option_header;
pub mod image_section_header;
pub mod md_token;
pub mod metadata_header;
pub mod strings_stream;
pub mod table_kind;
pub mod table_schema;
pub mod table_stream;
pub mod us_stream;
pub mod pe;
pub mod rid_list;
pub mod guid_stream;
pub mod root;
