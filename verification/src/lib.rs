//! Client-side logic for a remote similarity-detection service.
//!
//! The crate assembles a submission (base files and files to be compared),
//! builds every line of the text protocol that carries it to the server, and
//! decides, step by step, what a connection has to do next.  The stream and
//! the contents of the files stay with the caller, who lends them to a
//! session through [`client::session::Transport`].
pub mod client;
pub mod prelude;
