//! Relays posts from a Mastodon account stream to Bluesky.
//!
//! The library holds the decisions of one relay attempt: which stream events are
//! relayed, how a post's HTML content becomes plain text, and which request the
//! destination gets next for each reply it sent back. The network itself is
//! driven by the caller.
pub mod attempt;
pub mod relay;
pub mod sanitize;
