pub mod board;
pub mod task;
