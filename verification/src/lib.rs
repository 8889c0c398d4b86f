pub mod client;
pub mod error;
pub mod server;
pub mod zones;

pub use client::Client;
pub use error::Error;
