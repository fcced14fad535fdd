//! Request routing for a small personal site. One listener serves several hostnames, and the
//! hostname alone decides what a request means: the liveness probe, the short links, the
//! music link, a redirect from a second domain, or the site itself with its files and the
//! proxy for the visit counter.
//!
//! The library decides and the caller acts. [`site::Site::handle`] maps a request to an
//! [`primary::Action`]: a response to send, a file to serve, or a request to forward. It
//! reads no file and opens no connection. What it takes from the `http`, `html-escape` and
//! `serde_json` crates is stated where it is called, in [`headers`], [`uri`], [`escape`] and
//! [`shortlinks`]; everything else is proved.

pub mod error;
pub mod escape;
pub mod handlers;
pub mod headers;
pub mod primary;
pub mod proxy;
pub mod request;
pub mod response;
pub mod router;
pub mod shortlinks;
pub mod site;
pub mod text;
pub mod uri;
