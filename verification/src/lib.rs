pub mod laws;
pub mod text;
pub mod value;
