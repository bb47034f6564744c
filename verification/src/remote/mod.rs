//! Launching a remote session over ssh: the command line, the text handed to
//! ssh and to the remote shell, and every decision taken between two ssh calls.

pub mod arg_laws;
pub mod args;
pub mod client_build;
pub mod command_laws;
pub mod decide;
pub mod host_laws;
pub mod manifest;
pub mod manifest_laws;
pub mod message_laws;
pub mod outcome_laws;
pub mod platform;
pub mod prepare;
pub mod prepare_laws;
pub mod probe;
pub mod probe_laws;
pub mod quote;
pub mod quote_laws;
pub mod reattach_laws;
pub mod scripts;
pub mod server;
pub mod server_laws;
pub mod sockets;
pub mod ssh;
