//! Verified core of a font-fetching tool: it resolves a named font family
//! against a remote catalog, plans one download-and-convert task per style
//! variant, aggregates the tasks' outcomes under a shared progress state, and
//! renders a stylesheet for the variants that fully succeeded.
//!
//! Everything that computes or decides lives here with a contract; the thin
//! shell that performs network, filesystem and process I/O sits outside the
//! verified library and hands plain values in and out.

pub mod fonts;
pub mod pipeline;
pub mod stylesheet;
pub mod text;
pub mod utils;
