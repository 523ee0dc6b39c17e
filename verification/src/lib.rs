//! Storage parameters, parquet read options, statement rendering and the
//! decision logic of the meta service, with their contracts.
pub mod read_options;
pub mod text;
pub mod storage_params;
pub mod storage_display;
pub mod storage_debug;
pub mod replace;
pub mod grpc_service;
