//! Safety checks around the conversation: crisis-keyword detection on
//! input and a medical-advice disclaimer on output.

use vstd::prelude::*;
use crate::intent::lower_of;
use crate::intent::lowercase;
use crate::text::contains_seq;
use crate::text::contains_sub;

verus! {

/// The input's lowercased text holds a crisis keyword.
pub open spec fn crisis_spec(input: Seq<char>) -> bool {
    let lower = lower_of(input);
    contains_seq(lower, "suicide"@) || contains_seq(lower, "kill myself"@) || contains_seq(
        lower,
        "hurt myself"@,
    ) || contains_seq(lower, "end it all"@)
}

/// Crisis-keyword detection over user input.
pub struct CrisisDetector {}

impl CrisisDetector {
    pub fn new() -> (r: CrisisDetector) {
        CrisisDetector {  }
    }

    /// True iff the lowercased input holds any crisis keyword.
    pub fn detect_crisis(&self, input: &str) -> (r: bool)
        ensures
            r == crisis_spec(input@),
    {
        let lower = lowercase(input);
        contains_sub(lower.as_str(), "suicide") || contains_sub(lower.as_str(), "kill myself")
            || contains_sub(lower.as_str(), "hurt myself") || contains_sub(
            lower.as_str(),
            "end it all",
        )
    }
}

/// The output's lowercased text holds a medical-advice keyword.
pub open spec fn needs_disclaimer(output: Seq<char>) -> bool {
    let lower = lower_of(output);
    contains_seq(lower, "diagnosis"@) || contains_seq(lower, "prescribe"@) || contains_seq(
        lower,
        "medication"@,
    ) || contains_seq(lower, "disorder"@)
}

/// The fixed disclaimer appended once to medical-sounding output.
pub open spec fn disclaimer() -> Seq<char> {
    "\n\n\u{26a0}\u{fe0f}  Reminder: I cannot provide medical advice or diagnoses. Please consult a qualified mental health professional for clinical guidance."@
}

/// Input and output filters around the conversation.
pub struct SafetyFilters {}

impl SafetyFilters {
    pub fn new() -> (r: SafetyFilters) {
        SafetyFilters {  }
    }

    /// Input passes through unchanged.
    pub fn filter_input(&self, input: &str) -> (r: String)
        ensures
            r@ == input@,
    {
        input.to_owned()
    }

    /// Append the fixed disclaimer exactly once when the output's
    /// lowercased text holds a medical-advice keyword; otherwise the
    /// output passes through unchanged.
    pub fn filter_output(&self, output: &str) -> (r: String)
        ensures
            r@ == if needs_disclaimer(output@) {
                output@ + disclaimer()
            } else {
                output@
            },
    {
        let lower = lowercase(output);
        let hit = contains_sub(lower.as_str(), "diagnosis") || contains_sub(
            lower.as_str(),
            "prescribe",
        ) || contains_sub(lower.as_str(), "medication") || contains_sub(
            lower.as_str(),
            "disorder",
        );
        if hit {
            let mut filtered = output.to_owned();
            filtered.append(
                "\n\n\u{26a0}\u{fe0f}  Reminder: I cannot provide medical advice or diagnoses. Please consult a qualified mental health professional for clinical guidance.",
            );
            filtered
        } else {
            output.to_owned()
        }
    }
}

} // verus!
