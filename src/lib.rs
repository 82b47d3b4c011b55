//! Native-shell core of a desktop application: the window model, the one-time
//! setup sequence and the command bridge that embedded content calls into.
//!
//! Every decision lives here as verified code over plain values. The host
//! program performs the window-system calls that each decision asks for and
//! reports back what happened.
pub mod bootstrap;
pub mod bridge;
pub mod window;
