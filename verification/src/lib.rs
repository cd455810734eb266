//! Forwarding calls to where they belong, and the small parts this needs.

pub mod bit;
mod channel;
pub mod const_string;
pub mod expansion;
pub mod oneshot;
pub mod proxy;
pub mod registry;

pub use crate::proxy::method::{
    Forward, ForwardAsyncMethod, ForwardConfig, ForwardSync, ForwardSyncMethod, SyncCall,
};
pub use crate::proxy::selector::{ForwardKind, ForwardSelector, Index, Selector};
pub use crate::proxy::{ForwardMetadata, ForwardProxy, ForwardReturn};
