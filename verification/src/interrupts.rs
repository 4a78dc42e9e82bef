//! Routing of processor exceptions to their handlers.

pub mod idt;
