pub mod compression_adapter;
pub mod domain_types;
