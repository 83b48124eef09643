//! Serialising of structured HTTP/1.x requests and responses into the text
//! that goes on the wire: the start line, a line end, the header lines with
//! a line end between each two, a line end, and the body.
//!
//! The functions here perform no I/O and keep no state. What each of them
//! returns is stated over the views of the message types, and proved.

pub mod decode;
pub mod header;
pub mod laws;
pub mod message;
pub mod parser;
pub mod status;
pub mod version;
