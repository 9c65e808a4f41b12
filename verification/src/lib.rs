//! Message types and message filtering for the CLOB WebSocket channels.

pub mod interest;
pub mod text;
pub mod messages;
pub mod outside;
pub mod subscription;
pub mod shape;
pub mod laws;
