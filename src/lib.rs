pub mod blob_sidecar;
pub mod engine;
pub mod kzg_utils;
pub mod signing;
