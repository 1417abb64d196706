//! Interactive editor core for directed-graph state-machine diagrams.
//!
//! The library holds the verified heart of the editor: the graph of named,
//! positioned nodes with directed edges, the keyboard-driven selection and
//! editing protocol, and the integer coordinate arithmetic the protocol uses.
//! Terminal input and output, and the floating-point arrow geometry of the
//! renderer, live outside the library.

pub mod coords;
pub mod graph;
pub mod editor;
