//! IPv6-to-IPv6 network prefix translation.
//!
//! A pure computational core for NPTv6 (RFC 6296) and for netmap-style
//! fixed-prefix rewriting: given an incoming IPv6 address and prefix
//! metadata, produce the translated address.  Both transforms are
//! reversible, and the reversibility laws are stated and proved here.

pub mod address;
pub mod laws;
pub mod prefix;
pub mod translate;

pub use address::construct_v6addr;
pub use address::construct_v6addr_unchecked;
pub use address::Address;
pub use prefix::Prefix;
pub use translate::netmapv6;
pub use translate::nptv6;
pub use translate::pfx_csum;
