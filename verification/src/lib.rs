pub mod buffer;
pub mod deltas;
pub mod file;
pub mod gate;
pub mod server;
pub mod session;
