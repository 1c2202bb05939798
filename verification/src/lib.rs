//! Pure checkers, campaign vocabulary and trace bookkeeping for an adversarial
//! conformance harness over a perpetual-futures risk engine.
pub mod text;
pub mod scenario;
pub mod driver;
pub mod oracles;
pub mod runner;
pub mod report;
