pub mod chat;
pub mod error;
pub mod json;
pub mod profile;
pub mod protocol;
pub mod render;
pub mod text;
