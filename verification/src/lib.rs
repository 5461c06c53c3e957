//! Message-dispatch core of a language server: the decisions of the reader,
//! the response writer, the writer and the command handler, the shutdown
//! signal they share, and an in-memory pipeline that runs them together.

pub mod error;
pub mod message;
pub mod output;
pub mod channel;
pub mod shutdown;
pub mod reader;
pub mod response_writer;
pub mod command;
pub mod writer;
pub mod state;
pub mod order;
pub mod handler;
pub mod pipeline;
