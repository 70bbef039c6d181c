pub mod delete;
pub mod get;
pub mod patch;
pub mod post;
