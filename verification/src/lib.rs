//! Flight tracker backend library.
//!
//! The library covers the two pieces of local logic behind the mobile
//! frontend: a device-identity store that keeps one identifier string in a
//! per-user configuration file, and a notification relay that turns price
//! alerts into human-readable notification messages and tallies how many
//! were delivered. It also declares the schema migrations for the local
//! offline cache. File and OS-notification I/O live with the caller; the
//! functions here make every decision around those calls.

pub mod decimal;
pub mod device;
pub mod errors;
pub mod notify;
pub mod schema;
pub mod text;
pub mod types;
pub mod utils;
