pub mod response;
pub mod text;
