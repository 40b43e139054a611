//! A streaming HTTP rendezvous relay, as a verified library.
//!
//! Arbitrary clients publish (POST/PUT) and subscribe (GET) on ad-hoc path
//! names; when one sender and one receiver meet at the same path, the
//! sender's request body is streamed through to the receiver's response
//! body.  This crate holds the decision logic of that relay: the request
//! classifier, the path-keyed rendezvous registry, the multipart unwrapping
//! decisions, and the construction of the receiver's response head and of
//! the sender's progress lines.  The surrounding HTTP plumbing performs the
//! I/O and feeds plain values in and out.

pub mod msg;
pub mod registry;
pub mod reserved;
pub mod server;
pub mod strutil;
pub mod transfer;

