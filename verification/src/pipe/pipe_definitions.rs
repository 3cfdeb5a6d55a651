//! The kinds of data that flow between the stages of a pipeline.
use vstd::prelude::*;

verus! {

/// The type of data that can be passed between pipes
#[derive(Debug)]
pub enum PipeDataType {
    String,
    Parser,
    PreModel,
    Model,
    LinearModel,
    StandardLinearModel,
    Tableau,
    OptimalTableau,
    OptimalTableauWithSteps,
    BinarySolution,
    IntegerBinarySolution,
    RealSolution,
    MILPSolution,
}

impl PipeDataType {
    /// The name of the data type.
    pub open spec fn spec_text(self) -> Seq<char> {
        match self {
            PipeDataType::String => "String"@,
            PipeDataType::Parser => "Parser"@,
            PipeDataType::PreModel => "PreModel"@,
            PipeDataType::Model => "Model"@,
            PipeDataType::LinearModel => "LinearModel"@,
            PipeDataType::StandardLinearModel => "StandardLinearModel"@,
            PipeDataType::Tableau => "Tableau"@,
            PipeDataType::OptimalTableau => "OptimalTableau"@,
            PipeDataType::OptimalTableauWithSteps => "OptimalTableauWithSteps"@,
            PipeDataType::BinarySolution => "BinarySolution"@,
            PipeDataType::IntegerBinarySolution => "IntegerBinarySolution"@,
            PipeDataType::RealSolution => "RealSolution"@,
            PipeDataType::MILPSolution => "MILPSolution"@,
        }
    }

    /// The name of the data type.
    pub fn to_string(&self) -> (r: String)
        ensures
            r@ == self.spec_text(),
    {
        match self {
            PipeDataType::String => String::from_str("String"),
            PipeDataType::Parser => String::from_str("Parser"),
            PipeDataType::PreModel => String::from_str("PreModel"),
            PipeDataType::Model => String::from_str("Model"),
            PipeDataType::LinearModel => String::from_str("LinearModel"),
            PipeDataType::StandardLinearModel => String::from_str("StandardLinearModel"),
            PipeDataType::Tableau => String::from_str("Tableau"),
            PipeDataType::OptimalTableau => String::from_str("OptimalTableau"),
            PipeDataType::OptimalTableauWithSteps => String::from_str("OptimalTableauWithSteps"),
            PipeDataType::BinarySolution => String::from_str("BinarySolution"),
            PipeDataType::IntegerBinarySolution => String::from_str("IntegerBinarySolution"),
            PipeDataType::RealSolution => String::from_str("RealSolution"),
            PipeDataType::MILPSolution => String::from_str("MILPSolution"),
        }
    }
}

} // verus!
