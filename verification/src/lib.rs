//! A bridge that fetches the contents of a remote URL on behalf of a front
//! end, presenting the identity of a desktop browser.
//!
//! The crate holds everything about a fetch that is decided rather than
//! performed: the request that is sent ([`request`]), how a transport failure
//! becomes text ([`failure`]), and the order in which sending, reading and
//! returning follow each other ([`exchange`]). The caller owns the HTTP client,
//! performs each [`exchange::Action`] and reports back an [`exchange::Event`].

pub mod exchange;
pub mod failure;
pub mod request;
