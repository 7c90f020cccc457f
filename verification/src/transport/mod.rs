//! Transport between cluster nodes: the wire protocol and the per-peer
//! bookkeeping of the transport layer.

pub mod protocol;
pub mod iroh;
pub mod shared;
pub mod simple;
