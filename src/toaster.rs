pub mod context;
pub mod laws;
