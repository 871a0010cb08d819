//! Method interception for a running JVM: descriptor parsing, calling-convention
//! mapping, the hook table, call routing and the attach/detach protocol, together
//! with the packet codecs and stores that the hooks feed.

pub mod account;
pub mod analyzer;
pub mod auth;
pub mod callbacks;
pub mod custom_payload;
pub mod dispatch;
pub mod handles;
pub mod manager;
pub mod native;
pub mod netlog;
pub mod original;
pub mod packets;
pub mod registry;
pub mod signature;
pub mod text;
pub mod trampoline;
pub mod ui;
pub mod value;
pub mod varint;
