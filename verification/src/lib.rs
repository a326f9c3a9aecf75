//! Builder and renderer for Verilog source text.
//!
//! Syntax trees for two dialects of the language are assembled through
//! builder calls and rendered to text through a small document layer.
//! The `subset` module holds the vocabulary shared by both dialects,
//! `v05` the older dialect and `v17` the newer one; `util` holds the
//! document layer and the helpers it needs.

pub mod laws;
pub mod subset;
pub mod util;
pub mod v05;
pub mod v17;
