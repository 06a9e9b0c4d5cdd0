//! Lopxy: the decision logic of a local intercepting HTTP/HTTPS proxy.
//!
//! Lopxy redirects exact resource URLs to a substitute, a remote URL or a
//! local file, and lets all other traffic through. This crate holds
//! everything that decides: the redirect registry, the request parser and
//! router, the forward and tunnel engines, the response builders, the status
//! log and the shutdown coordinator. Sockets, files and the settings of the
//! operating system live with the caller, which feeds plain values in and
//! acts on the plain values that come back.
//!
//! Contracts are stated over the views of the types. What an outside crate
//! computes is named by a function without a body, such as
//! [`uri::url_parse`], and the contracts say how results depend on it.

pub mod text;
pub mod item;
pub mod uri;
pub mod clock;
pub mod config;
pub mod header;
pub mod response;
pub mod request;
pub mod proxy;
pub mod status;
pub mod shutdown;
pub mod args;
pub mod instance;
pub mod env;
pub mod controller;
pub mod sockets;
pub mod router;
pub mod forward;
pub mod tunnel;
pub mod stream;
pub mod manager;
