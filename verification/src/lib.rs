//! Core of a file-manager icon-overlay extension.
//!
//! An overlay provider answers, per filesystem path, whether the host file
//! browser should draw a status badge.  The authoritative answer lives in an
//! out-of-process status daemon reached over RPC; this crate holds the
//! verified decision core that sits between the host's synchronous calls and
//! that remote query: connection-state bookkeeping, translation of daemon
//! responses into membership answers, icon-info resolution, and the
//! registration entries written into the host-global configuration store.
//! The unverified shell around it performs the actual RPC, the configuration
//! writes and the host ABI plumbing, and hands this crate plain values.

pub mod icon_overlay;
pub mod notify;
pub mod registry;
