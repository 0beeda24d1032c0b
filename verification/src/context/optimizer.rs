//! The settings of the optimizing tools.

use vstd::prelude::*;

verus! {

/// How hard the optimizer works.
#[derive(Debug, Clone, Copy, PartialEq, Eq, Structural, Hash)]
pub enum OptimizationLevel {
    /// No optimization.
    Off,
    /// Less than the default.
    Less,
    /// The default.
    Default,
    /// More than the default.
    Aggressive,
}

/// The settings of the optimizing tools: the levels of the middle end and of the back end.
#[derive(Debug, Clone, Copy, PartialEq, Eq, Structural, Hash)]
pub struct Optimizer {
    /// The optimization level of the middle end.
    pub level_middle: OptimizationLevel,
    /// The optimization level of the back end.
    pub level_back: OptimizationLevel,
}

impl Optimizer {
    /// A shortcut constructor.
    pub fn new(level_middle: OptimizationLevel, level_back: OptimizationLevel) -> (result: Optimizer)
        ensures
            result == (Optimizer { level_middle, level_back }),
    {
        Optimizer { level_middle, level_back }
    }

    /// The optimization level of the middle end.
    pub fn level_middle(&self) -> (result: OptimizationLevel)
        ensures
            result == self.level_middle,
    {
        self.level_middle
    }

    /// The optimization level of the back end.
    pub fn level_back(&self) -> (result: OptimizationLevel)
        ensures
            result == self.level_back,
    {
        self.level_back
    }
}

} // verus!
