//! Credentials for a package registry, taken from the user's login
//! database.
//!
//! A request names a registry by the URL of its index and asks for a token.
//! The library finds the host in the URL ([`host`]), looks the host up in the
//! login database ([`store`]), renders the entry it finds through the
//! caller's template ([`template`]) and wraps the result in a response
//! ([`adapter`]). Nothing is ever written: storing and erasing credentials
//! are refused.
//!
//! The library does no I/O. Its caller reads the login file and parses the
//! command line, and hands in what it got, failures included; which failure
//! a request ends with is decided here.
//!
//! Every function is verified against its contract. The contracts speak of
//! two things that are taken on trust: what the `url` crate finds in a URL
//! ([`host::url_host`]) and what the `netrc` crate finds in a login file
//! ([`store::netrc_hosts`]).

pub mod adapter;
pub mod entry;
pub mod error;
pub mod host;
pub mod secret;
pub mod store;
pub mod template;
pub mod text;
