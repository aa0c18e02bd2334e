pub mod outside;
pub mod record;
pub mod text;
