//! Fan-out delivery of account notifications to console and HTTP push backends.
pub mod text;
pub mod notification;
pub mod push;
pub mod mailbox;
pub mod worker;
pub mod console;
pub mod config;
pub mod multiplexer;
pub mod storage;
