//! The stages of a pipeline: each turns one kind of data into the next.
use vstd::prelude::*;

verus! {

/// Enum that represents the different pipes that can be executed
#[derive(Debug)]
pub enum Pipes {
    CompilerPipe,
    PreModelPipe,
    ModelPipe,
    LinearModelPipe,
    StandardLinearModelPipe,
    TableauPipe,
    RealPipe,
    StepByStepSimplexPipe,
    BinarySolverPipe,
    IntegerBinarySolverPipe,
    MILPSolverPipe,
    AutoSolverPipe,
}

/// Pipe that compiles the source code into a parser
pub struct CompilerPipe {}

impl Default for CompilerPipe {
    fn default() -> (r: Self)
        ensures
            r == (CompilerPipe {}),
    {
        Self::new()
    }
}

impl CompilerPipe {
    /// The pipe; it has no settings.
    pub fn new() -> (r: CompilerPipe)
        ensures
            r == (CompilerPipe {}),
    {
        CompilerPipe {}
    }
}

/// Pipe that transforms the parsed code into a pre model
pub struct PreModelPipe {}

impl Default for PreModelPipe {
    fn default() -> (r: Self)
        ensures
            r == (PreModelPipe {}),
    {
        Self::new()
    }
}

impl PreModelPipe {
    /// The pipe; it has no settings.
    pub fn new() -> (r: PreModelPipe)
        ensures
            r == (PreModelPipe {}),
    {
        PreModelPipe {}
    }
}

/// Pipe that transforms the pre model into a model
pub struct ModelPipe {}

impl Default for ModelPipe {
    fn default() -> (r: Self)
        ensures
            r == (ModelPipe {}),
    {
        Self::new()
    }
}

impl ModelPipe {
    /// The pipe; it has no settings.
    pub fn new() -> (r: ModelPipe)
        ensures
            r == (ModelPipe {}),
    {
        ModelPipe {}
    }
}

/// Pipe that transforms the model into a linear model
pub struct LinearModelPipe {}

impl Default for LinearModelPipe {
    fn default() -> (r: Self)
        ensures
            r == (LinearModelPipe {}),
    {
        Self::new()
    }
}

impl LinearModelPipe {
    /// The pipe; it has no settings.
    pub fn new() -> (r: LinearModelPipe)
        ensures
            r == (LinearModelPipe {}),
    {
        LinearModelPipe {}
    }
}

/// Pipe that transforms the linear model into a standard linear model
pub struct StandardLinearModelPipe {}

impl Default for StandardLinearModelPipe {
    fn default() -> (r: Self)
        ensures
            r == (StandardLinearModelPipe {}),
    {
        Self::new()
    }
}

impl StandardLinearModelPipe {
    /// The pipe; it has no settings.
    pub fn new() -> (r: StandardLinearModelPipe)
        ensures
            r == (StandardLinearModelPipe {}),
    {
        StandardLinearModelPipe {}
    }
}

/// Pipe that transforms the standard linear model into a tableau
pub struct TableauPipe {}

impl Default for TableauPipe {
    fn default() -> (r: Self)
        ensures
            r == (TableauPipe {}),
    {
        Self::new()
    }
}

impl TableauPipe {
    /// The pipe; it has no settings.
    pub fn new() -> (r: TableauPipe)
        ensures
            r == (TableauPipe {}),
    {
        TableauPipe {}
    }
}

/// Pipe that solves a linear model with real variables
pub struct RealSolver {}

impl Default for RealSolver {
    fn default() -> (r: Self)
        ensures
            r == (RealSolver {}),
    {
        Self::new()
    }
}

impl RealSolver {
    /// The pipe; it has no settings.
    pub fn new() -> (r: RealSolver)
        ensures
            r == (RealSolver {}),
    {
        RealSolver {}
    }
}

/// Pipe that solves a tableau with the simplex method, keeping its steps
pub struct StepByStepSimplexPipe {}

impl Default for StepByStepSimplexPipe {
    fn default() -> (r: Self)
        ensures
            r == (StepByStepSimplexPipe {}),
    {
        Self::new()
    }
}

impl StepByStepSimplexPipe {
    /// The pipe; it has no settings.
    pub fn new() -> (r: StepByStepSimplexPipe)
        ensures
            r == (StepByStepSimplexPipe {}),
    {
        StepByStepSimplexPipe {}
    }
}

/// Pipe that builds the dual of a linear model
struct DualPipe {}

impl Default for DualPipe {
    fn default() -> (r: Self) {
        Self::new()
    }
}

impl DualPipe {
    /// The pipe; it has no settings.
    pub fn new() -> (r: DualPipe) {
        DualPipe {}
    }
}

/// Pipe that solves a model with binary variables
pub struct BinarySolverPipe {}

impl Default for BinarySolverPipe {
    fn default() -> (r: Self)
        ensures
            r == (BinarySolverPipe {}),
    {
        Self::new()
    }
}

impl BinarySolverPipe {
    /// The pipe; it has no settings.
    pub fn new() -> (r: BinarySolverPipe)
        ensures
            r == (BinarySolverPipe {}),
    {
        BinarySolverPipe {}
    }
}

/// Pipe that solves a model with integer and binary variables
pub struct IntegerBinarySolverPipe {}

impl Default for IntegerBinarySolverPipe {
    fn default() -> (r: Self)
        ensures
            r == (IntegerBinarySolverPipe {}),
    {
        Self::new()
    }
}

impl IntegerBinarySolverPipe {
    /// The pipe; it has no settings.
    pub fn new() -> (r: IntegerBinarySolverPipe)
        ensures
            r == (IntegerBinarySolverPipe {}),
    {
        IntegerBinarySolverPipe {}
    }
}

/// Pipe that solves a mixed integer linear model
pub struct MILPSolverPipe {}

impl Default for MILPSolverPipe {
    fn default() -> (r: Self)
        ensures
            r == (MILPSolverPipe {}),
    {
        Self::new()
    }
}

impl MILPSolverPipe {
    /// The pipe; it has no settings.
    pub fn new() -> (r: MILPSolverPipe)
        ensures
            r == (MILPSolverPipe {}),
    {
        MILPSolverPipe {}
    }
}

/// Pipe that picks the solver that fits the model
pub struct AutoSolverPipe {}

impl Default for AutoSolverPipe {
    fn default() -> (r: Self)
        ensures
            r == (AutoSolverPipe {}),
    {
        Self::new()
    }
}

impl AutoSolverPipe {
    /// The pipe; it has no settings.
    pub fn new() -> (r: AutoSolverPipe)
        ensures
            r == (AutoSolverPipe {}),
    {
        AutoSolverPipe {}
    }
}

} // verus!
