//! PTY-backed interactive shell session manager.
//!
//! The library holds the verified logic of the session manager: the launch
//! protocol that orders script creation, pseudoterminal allocation, child
//! spawn, subordinate-side release and relay start; the generator for the
//! transient shell start-up script; the duplex relay's per-chunk decisions;
//! and the menu and settings decisions around it. The blocking I/O that
//! drives these machines (the pseudoterminal itself, the real input and
//! output streams, the process wait) lives outside the library.

pub mod cli;
pub mod launch;
pub mod menu;
pub mod relay;
pub mod script;
