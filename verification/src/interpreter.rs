pub mod assembly;
pub mod assembly_name;
pub mod assembly_ref;
pub mod data_reader;
pub mod exported_type;
pub mod fault;
pub mod field;
pub mod il_type;
pub mod image_reader;
pub mod machine;
pub mod member_ref;
pub mod metadata;
pub mod method;
pub mod method_spec;
pub mod module_ref;
pub mod object;
pub mod op_codes;
pub mod param;
pub mod resolve;
pub mod row_util;
pub mod sig_equal;
pub mod signature;
pub mod standalone_sig;
pub mod text;
pub mod type_def;
pub mod type_ref;
pub mod type_sig;
pub mod type_spec;
