//! A reverse-forwarding proxy core: request routing, URI rewriting, header
//! policy, bounded retry with jittered exponential backoff, and the drain flag
//! consulted before any work is done.

pub mod config;
pub mod uri;
pub mod headers;
pub mod retry;
pub mod forward;
pub mod router;
pub mod shutdown;
