//! A minimal HTTP/1.1 server core for hosts whose listener must stay
//! synchronous (embedded targets among them): it parses the request line of an
//! incoming connection, hands a structured request to an external dispatcher,
//! and serializes the structured response back into wire bytes.

pub mod accept;
pub mod codec;
pub mod connection;
pub mod http_server;
