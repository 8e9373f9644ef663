//! Command-line grammar and mode resolution for a multi-role remote-access tool.
//!
//! [`schema`] holds the grammar as plain data, [`cli`] hands it to clap and reads clap's
//! matches back, [`resolve`] applies the implicit-`client` retry, and [`invocation`] offers
//! typed accessors on the result.

pub mod mode;
pub mod schema;
pub mod invocation;
pub mod cli;
pub mod resolve;
pub mod logging;
