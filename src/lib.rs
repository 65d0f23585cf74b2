//! Binary-transparency checks for package downloads: which URLs need a
//! transparency proof, how that proof is checked against the canonical hash
//! of a package, how the transparency log and the rebuilders are consulted,
//! and the order in which a download may finally be written.

pub mod archive;
pub mod classify;
pub mod error;
pub mod fetch;
pub mod logging;
pub mod pipeline;
pub mod proxy;
pub mod rebuild;
pub mod repo;
pub mod signature;
pub mod text;
pub mod translog;
pub mod weburl;
