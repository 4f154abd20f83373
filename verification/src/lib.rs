//! A small request server, verified.
//!
//! The server reads one request from a connection, chooses a handler by the
//! request's method and path, and writes the handler's response back. This
//! library holds everything of that which is computation: the grammar of
//! requests ([`request`]), the wire form of responses ([`response`]), the
//! route table ([`route`]), the handlers ([`handlers`]) and the course of one
//! connection ([`connection`]). Sockets and files are the caller's business:
//! the library says what is to be read, written and sent.
//!
//! Every executable function carries a contract over the text it works on,
//! taken as a sequence of characters, and is proved against it. Two
//! functions of the standard library are called and not defined here; they
//! stand in [`unicode`].
pub mod connection;
pub mod handlers;
pub mod header;
pub mod request;
pub mod response;
pub mod route;
pub mod search;
pub mod text;
pub mod unicode;
