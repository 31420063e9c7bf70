//! The user table.

pub mod dynamo;
