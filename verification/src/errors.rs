//! The coordinator's error type.

use vstd::prelude::*;

verus! {

#[derive(Debug)]
pub enum CoordinatorError {
    Goal(String),
    Planning(String),
    Reasoning(String),
    Decision(String),
    Policy(String),
    Reflection(String),
    Learning(String),
    Workflow(String),
    Internal(String),
}

pub type CoordinatorResult<T> = Result<T, CoordinatorError>;

impl CoordinatorError {
    /// The kind label that starts the error's message.
    pub open spec fn label(self) -> Seq<char> {
        match self {
            CoordinatorError::Goal(_) => "goal error: "@,
            CoordinatorError::Planning(_) => "planning error: "@,
            CoordinatorError::Reasoning(_) => "reasoning error: "@,
            CoordinatorError::Decision(_) => "decision error: "@,
            CoordinatorError::Policy(_) => "policy error: "@,
            CoordinatorError::Reflection(_) => "reflection error: "@,
            CoordinatorError::Learning(_) => "learning error: "@,
            CoordinatorError::Workflow(_) => "workflow error: "@,
            CoordinatorError::Internal(_) => "internal error: "@,
        }
    }

    /// The detail carried by the error.
    pub open spec fn detail(self) -> Seq<char> {
        match self {
            CoordinatorError::Goal(s) => s@,
            CoordinatorError::Planning(s) => s@,
            CoordinatorError::Reasoning(s) => s@,
            CoordinatorError::Decision(s) => s@,
            CoordinatorError::Policy(s) => s@,
            CoordinatorError::Reflection(s) => s@,
            CoordinatorError::Learning(s) => s@,
            CoordinatorError::Workflow(s) => s@,
            CoordinatorError::Internal(s) => s@,
        }
    }

    /// The human-readable message, e.g. "goal error: not found".
    pub fn message(&self) -> (m: String)
        ensures
            m@ == self.label() + self.detail(),
    {
        let (label, detail) = match self {
            CoordinatorError::Goal(s) => ("goal error: ", s),
            CoordinatorError::Planning(s) => ("planning error: ", s),
            CoordinatorError::Reasoning(s) => ("reasoning error: ", s),
            CoordinatorError::Decision(s) => ("decision error: ", s),
            CoordinatorError::Policy(s) => ("policy error: ", s),
            CoordinatorError::Reflection(s) => ("reflection error: ", s),
            CoordinatorError::Learning(s) => ("learning error: ", s),
            CoordinatorError::Workflow(s) => ("workflow error: ", s),
            CoordinatorError::Internal(s) => ("internal error: ", s),
        };
        let mut m = String::from_str(label);
        m.append(detail.as_str());
        m
    }
}

} // verus!
