//! A resumable, rate-limited file transfer library.
//!
//! An uploader streams the bytes of a local file to a receiver over a
//! stream-oriented connection.  The receiver persists the bytes at a
//! requested offset and periodically acknowledges the absolute file
//! position that has been durably written.  When the connection breaks,
//! the uploader reconnects and resumes from the last acknowledged
//! offset.  Outgoing writes may be throttled by a token bucket.
//!
//! This crate holds the verified core: the wire framing, the token
//! bucket, the receiver and uploader session state machines, and the
//! lifecycle control flag.  The sockets, files, clocks and sleeps that
//! drive these machines live outside the library.
pub mod bucket;
pub mod control;
pub mod filemodel;
pub mod receiver;
pub mod uploader;
pub mod wire;
