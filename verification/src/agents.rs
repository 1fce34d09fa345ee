//! The remaining named handlers.  Each is a placeholder in this
//! version: its reply is a fixed acknowledgement.

use vstd::prelude::*;

verus! {

/// Structured-assessment handler (placeholder).
pub struct AssessmentAgent {}

impl AssessmentAgent {
    pub fn new() -> (r: AssessmentAgent) {
        AssessmentAgent {  }
    }

    /// The fixed placeholder reply.
    pub fn process(&self, _input: &str) -> (r: String)
        ensures
            r@ == "Assessment agent response"@,
    {
        String::from_str("Assessment agent response")
    }
}

/// Intake handler (placeholder).
pub struct IntakeAgent {}

impl IntakeAgent {
    pub fn new() -> (r: IntakeAgent) {
        IntakeAgent {  }
    }

    /// The fixed placeholder reply.
    pub fn process(&self, _input: &str) -> (r: String)
        ensures
            r@ == "Intake agent response"@,
    {
        String::from_str("Intake agent response")
    }
}

/// Intervention handler (placeholder).
pub struct InterventionAgent {}

impl InterventionAgent {
    pub fn new() -> (r: InterventionAgent) {
        InterventionAgent {  }
    }

    /// The fixed placeholder reply.
    pub fn process(&self, _input: &str) -> (r: String)
        ensures
            r@ == "Intervention agent response"@,
    {
        String::from_str("Intervention agent response")
    }
}

/// Monitoring handler (placeholder).
pub struct MonitoringAgent {}

impl MonitoringAgent {
    pub fn new() -> (r: MonitoringAgent) {
        MonitoringAgent {  }
    }

    /// The fixed placeholder reply.
    pub fn process(&self, _input: &str) -> (r: String)
        ensures
            r@ == "Monitoring agent response"@,
    {
        String::from_str("Monitoring agent response")
    }
}

} // verus!
