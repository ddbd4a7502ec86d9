//! The backtest engine (its event loop is still to come).

use vstd::prelude::*;

verus! {

/// The backtest engine.
#[derive(Debug, Default, Clone, Copy, PartialEq, Eq, Structural)]
pub struct BacktestEngine {}

/// What a backtest run yields.
#[derive(Debug, Default, Clone, Copy, PartialEq, Eq, Structural)]
pub struct RunResult {}

impl BacktestEngine {
    /// A new engine.
    pub fn new() -> (r: BacktestEngine)
        ensures
            r == (BacktestEngine {}),
    {
        BacktestEngine {}
    }

    /// Runs a backtest; with no event loop yet, the result holds nothing.
    pub fn run(&mut self) -> (r: RunResult)
        ensures
            r == (RunResult {}),
            *final(self) == *old(self),
    {
        RunResult {}
    }
}

} // verus!
