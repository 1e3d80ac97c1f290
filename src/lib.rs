//! A local call mechanism over Unix-domain sockets: the wire protocol of a
//! declared service, the location of its socket, and the decisions of the
//! listener's startup.

pub mod codec;
pub mod error;
pub mod launch;
pub mod paths;
pub mod service;
pub mod wire;

pub use error::DemoniteErr;
