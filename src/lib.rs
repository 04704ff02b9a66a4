//! Per-connection bridge between a message broker and websocket clients.
//!
//! Every client connection owns one exclusive broker queue. The modules here
//! hold the decisions of that bridge as verified state machines; the program
//! around the library performs the socket and broker I/O they ask for.
pub mod coinmarketcap;
pub mod forwarding;
pub mod json;
pub mod log;
pub mod naming;
pub mod session;
