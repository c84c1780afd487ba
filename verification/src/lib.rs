//! rfmt: a Rust source formatter.
//!
//! The library holds the formatter's intermediate representation (`ir`), the
//! typesetter that lays text out in lines (`ts`), the textual rendering of IR
//! nodes that the layout decisions measure (`display`), the formatter proper
//! (`ft`), and the parts of building the IR from the parser's output that do
//! not depend on the parser (`tr`), and what the command does with a
//! formatted file (`driver`).

pub mod ir;
pub mod ts;
pub mod display;
pub mod ft;
pub mod layout;
pub mod ast;
pub mod tr;
pub mod translation;
pub mod driver;
