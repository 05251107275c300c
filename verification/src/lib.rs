//! Authentication modules for a pluggable-authentication host: a fallback
//! factor that lets a user in as long as no marker file of theirs exists, and
//! a PIN factor that checks a short PIN against an Argon2 hash in a store.
//!
//! The library holds every decision of the modules and of the tool that
//! enrols users, each with its contract. It touches neither the host nor the
//! file system: what is to be done there is handed out as an action, and what
//! came of it is taken back as an event.
//!
//! - [`status`]: the terminal statuses, the failure kinds and the rule that
//!   maps a result to a status.
//! - [`utils`]: argument tokens, the caller's name, and the end of an
//!   invocation.
//! - [`path`]: the guard for names that become path components.
//! - [`hash`]: hashing and verifying PINs.
//! - [`store`]: the credential store.
//! - [`sandbox`]: the setup of the isolation layer.
//! - [`fallback`] and [`pin`]: the two modules.
//! - [`generator`]: the enrolment tool.

pub mod fallback;
pub mod generator;
pub mod hash;
pub mod path;
pub mod pin;
pub mod sandbox;
pub mod status;
pub mod store;
pub mod utils;
