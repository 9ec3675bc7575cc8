//! An embeddable FTP/FTPS server session engine.
//!
//! The engine is the pure heart of an FTP server: the per-connection
//! session state machine, the command dispatcher with its
//! authentication gate, the handling of internal data-channel events,
//! the control-channel event-loop step function, and the PROXY-protocol
//! switchboard that pairs passive data connections back to the sessions
//! that requested them.
//!
//! All I/O (sockets, TLS handshakes, storage backends, authenticators)
//! lives outside: callers feed decoded commands and completion events
//! in, and perform the requested effects; every decision in between is
//! made here and verified.

pub mod chancomms;
pub mod command;
pub mod commands;
pub mod controlchan;
pub mod error;
pub mod eventloop;
pub mod ftpserver;
pub mod laws;
pub mod outcome;
pub mod path;
pub mod proxy_protocol;
pub mod reply;
pub mod session;
pub mod storage;
pub mod switchboard;
pub mod text;
pub mod timefmt;
