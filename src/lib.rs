//! A network coordinator: it keeps the registered service records, turns
//! notification commands into datagrams for the service endpoint, and appends
//! every well-formed inbound datagram, tagged with its sender and the current
//! records, to a log.

pub mod address;
pub mod coordinator;
pub mod laws;
pub mod render;
pub mod server;

pub use address::{Address, LISTEN_PORT, RECV_BUFFER_LEN, SERVICE_PORT};
pub use coordinator::{next_event, Action, Coordinator, Datagram, Event, Message, SendType};
pub use server::Server;
