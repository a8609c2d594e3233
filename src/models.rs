//! The models the service offers for each kind of request.
use vstd::prelude::*;
use vstd::string::*;

verus! {

/// Models for code generation.
#[derive(Debug, Clone, Copy, PartialEq, Eq, Structural)]
pub enum DevModel {
    Gpt4o,
    Gpt4,
}

/// Models for code review.
#[derive(Debug, Clone, Copy, PartialEq, Eq, Structural)]
pub enum LintModel {
    Gpt3,
}

pub open spec fn dev_model_name(m: DevModel) -> Seq<char> {
    match m {
        DevModel::Gpt4o => "openai:gpt4o"@,
        DevModel::Gpt4 => "openai:gpt4"@,
    }
}

pub open spec fn lint_model_name(m: LintModel) -> Seq<char> {
    match m {
        LintModel::Gpt3 => "openai:gpt3"@,
    }
}

impl DevModel {
    /// The name the service knows the model by.
    pub fn to_str(&self) -> (r: String)
        ensures
            r@ == dev_model_name(*self),
    {
        match self {
            DevModel::Gpt4o => String::from_str("openai:gpt4o"),
            DevModel::Gpt4 => String::from_str("openai:gpt4"),
        }
    }
}

impl LintModel {
    /// The name the service knows the model by.
    pub fn to_str(&self) -> (r: String)
        ensures
            r@ == lint_model_name(*self),
    {
        match self {
            LintModel::Gpt3 => String::from_str("openai:gpt3"),
        }
    }
}

} // verus!
