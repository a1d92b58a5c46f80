//! A verified model of a JavaScript-engine embedding bridge for a PHP host:
//! a bidirectional value-conversion layer between the two type systems, a
//! callback registry with its trampoline dispatch rules, an engine lifecycle
//! state machine, and the execution-governor policy for time and heap limits.
//!
//! The engine itself (isolates, handle scopes, the PHP extension surface) is
//! foreign native code; this crate verifies every decision the bridge makes,
//! stated over plain models of the values that cross the boundary.

pub mod bridge;
pub mod convert;
pub mod engine;
pub mod governor;
pub mod laws;
pub mod table;
pub mod value;
