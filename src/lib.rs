//! A one-shot oracle that answers whether an untrusted regular expression
//! matches an untrusted text, turning every content problem into a reply.
//!
//! The pipeline runs in order: a bounded read of the request bytes
//! (`reader`), the evaluation of a decoded request (`evaluate`), and the
//! mapping of its outcome to a reply or a fatal transport failure
//! (`response`). The module `laws` states what holds across them.
pub mod reader;
pub mod evaluate;
pub mod response;
pub mod laws;
