//! A verified MySQL grammar extension for a generic, vendor-neutral SQL
//! parsing engine.
//!
//! The library models the extension points a host recursive-descent parser
//! offers to a dialect: capability flags that reshape identifier and literal
//! rules, an infix hook recognizing the vendor's `DIV` operator, a statement
//! hook recognizing `LOCK TABLES` / `UNLOCK TABLES`, and an option-grammar
//! engine that validates and constructs typed table/view option nodes.
//!
//! Every parsing function carries a contract relating its result and the
//! tokens it consumed to a mathematical description of the grammar, stated
//! over sequences of token models.

pub mod ast;
pub mod dialect;
pub mod keywords;
pub mod options;
pub mod parser;
pub mod render;
pub mod statements;
pub mod text;
pub mod token;
