//! Client-side bindings for a game-server SDK sidecar: typed message shapes,
//! a channel model that fixes what every call returns, a client facade over
//! the nine operations, the server-side capability set, and the demonstration
//! driver's control logic (foreground sequence, health pulse, change watch).

pub mod messages;
pub mod errors;
pub mod channel;
pub mod streams;
pub mod client;
pub mod service;
pub mod format;
pub mod driver;
