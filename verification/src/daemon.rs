//! The daemon: sessions, their audio, and the requests of their clients.
pub mod bridges;
pub mod capture;
pub mod client;
pub mod history;
pub mod playback;
pub mod port;
pub mod repeat;
pub mod report;
pub mod session;
pub mod state;
pub mod wait;
