pub mod board;
pub mod task;
pub mod user;
