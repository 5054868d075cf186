//! Client side of the model server's HTTP interface: what is sent, how an
//! answer is judged and how a streamed answer is taken apart.

pub mod error;
pub mod generate;
pub mod stream;
pub mod endpoint;
pub mod list;
