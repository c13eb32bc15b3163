//! Interception protocol for an overlay that lives inside a host's frame
//! presentation path and window message pump.
//!
//! The library holds the decisions of the protocol: which redirects are
//! installed and where a call through a target goes ([`hook`]), when the
//! overlay is built and what each presentation call forwards ([`overlay`]),
//! and whether a window message is swallowed or handed to the saved window
//! procedure ([`input`]). The native work (patching code, building the render
//! backend, calling the saved procedures) is performed by the embedding
//! program, which feeds the outcomes back in.
pub mod hook;
pub mod overlay;
pub mod input;
