//! The logic of a proxy that stands before a file-backed bot API server.
//!
//! The upstream keeps files on its local disk and answers a resolve-file call
//! with an absolute path in its own storage. The proxy serves those files
//! under a public path, rewrites the answer to a resolve-file call so that it
//! names the file by a relative path, and forwards every other request as it
//! came.
//!
//! This crate decides; it does no input or output. [`route`] tells which
//! handler takes a request. [`handlers`] holds the three handlers as state
//! machines that a server drives: the file streamer, which works below the
//! sandbox root of [`sandbox`], the resolution rewriter, which rewrites as
//! [`resolution`] says, and the generic forwarder. [`config`] holds the
//! settings, [`http`] the heads of requests and responses, and [`bytes`] and
//! [`text`] what is needed of byte strings and of UTF-8. [`json`] and [`uri`]
//! state what is taken on trust from `serde_json` and `hyper`.

pub mod bytes;
pub mod config;
pub mod handlers;
pub mod http;
pub mod json;
pub mod resolution;
pub mod route;
pub mod sandbox;
pub mod text;
pub mod uri;
