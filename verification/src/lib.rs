pub mod client_loop;
pub mod deep;
pub mod json;
pub mod laws;
pub mod message;
pub mod mode;
pub mod process;
pub mod protocol;
pub mod provider;
pub mod request;
pub mod servers;
pub mod session;
pub mod stream;
pub mod text;
pub mod update;
