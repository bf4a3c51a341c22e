//! A versioning virtual filesystem core.
//!
//! The library models a single virtual directory (the root) holding one
//! logical file (the target). Every open of the target with write intent
//! begins a new immutable snapshot version; reads always see the newest
//! version's bytes. The state machine deciding which snapshot is current,
//! what each snapshot holds, and how attributes and directory listings are
//! derived is verified here; the host that speaks the kernel filesystem
//! protocol and performs the actual disk I/O lives outside the library and
//! mirrors these decisions onto plain files.

pub mod attr;
pub mod dir;
pub mod laws;
pub mod naming;
pub mod store;
pub mod vfs;
