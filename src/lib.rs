//! Administration core: platform tags, transport decisions, handler
//! registries, a task ledger and bearer-token bookkeeping.

mod text;

pub mod apps;
pub mod auth;
pub mod controller;
pub mod description;
pub mod error;
pub mod files;
pub mod os;
pub mod os_release;
pub mod passwd;
pub mod system;
pub mod task;
pub mod version;

pub use os::Os;
