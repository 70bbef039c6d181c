//! Request handling logic of a small task-board service: sessions, request
//! bodies, query text, the decision steps of every handler, and the registry
//! of live websocket connections.

pub mod models;
pub mod session;
pub mod request;
pub mod reply;
pub mod db;
pub mod decimal;
pub mod password;
pub mod https;
pub mod helper;
pub mod websocket;
pub mod laws;
pub mod tables;
pub mod literal;
pub mod intent;
