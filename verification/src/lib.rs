//! Client-side callback dispatch and activation lifecycle for a real-time
//! audio server, with every rule stated as a contract and proved.
//!
//! The server runs a graph of audio clients. Once per cycle it calls each
//! active client on a real-time thread, and it tells clients of changes
//! (ports and clients that come and go, a new buffer size, a missed
//! deadline, its own shutdown) on another thread. This library is the part
//! of a client that stands between those calls and the user's handlers:
//!
//! - `handler` has the two capabilities that a user supplies;
//! - `callbacks` has the entry points that decode what the server sends,
//!   call the handlers and encode their answer;
//! - `client` and `async_client` have the inactive and the active wrapper of
//!   a session and the transitions between them;
//! - `process_scope`, `text`, `control`, `client_status`, `client_options`,
//!   `thread_affinity` and `port` have the values that pass through;
//! - `test_tools` has handlers that record what they are told;
//! - `time` reads the clock.
//!
//! The library never talks to a server itself. Where a decision depends on
//! the server's answer, the caller makes the request and hands the answer
//! in.

pub mod async_client;
pub mod callbacks;
pub mod client;
pub mod client_options;
pub mod client_status;
pub mod control;
pub mod error;
pub mod handler;
pub mod port;
pub mod primitive_types;
pub mod process_scope;
pub mod test_tools;
pub mod text;
pub mod thread_affinity;
pub mod time;
