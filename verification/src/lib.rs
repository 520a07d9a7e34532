pub mod engine;
pub mod errors;
pub mod netcfg;
pub mod request;
