//! Canned therapeutic replies for running without a generation
//! backend: a fixed lookup over patterns in the lowercased input, in
//! priority order, with a session-count-aware default.

use vstd::prelude::*;
use crate::intent::lower_of;
use crate::intent::lowercase;
use crate::text::contains_seq;
use crate::text::contains_sub;
use crate::therapeutic::TherapeuticContext;

verus! {

/// The canned reply for one input: the first matching pattern group
/// wins; with no match, a first-session greeting or a generic prompt.
pub open spec fn mock_response_spec(input: Seq<char>, session_count: u32) -> Seq<char> {
    let lower = lower_of(input);
    if contains_seq(lower, "anxious"@) || contains_seq(lower, "anxiety"@) {
        "I hear that you're feeling anxious. That's a very common experience, and it's important to acknowledge these feelings. Can you tell me more about what might be contributing to your anxiety right now? Sometimes talking through our worries can help us understand them better."@
    } else if contains_seq(lower, "sad"@) || contains_seq(lower, "depressed"@) || contains_seq(
        lower,
        "down"@,
    ) {
        "Thank you for sharing that you're feeling down. It takes courage to acknowledge difficult emotions. Remember that these feelings are temporary, even when they feel overwhelming. What has helped you cope with similar feelings in the past?"@
    } else if contains_seq(lower, "stress"@) || contains_seq(lower, "overwhelmed"@) {
        "Feeling stressed and overwhelmed is something many people experience. Let's take a moment to acknowledge that you're dealing with a lot right now. What's one small thing that might help you feel a bit more in control today?"@
    } else if contains_seq(lower, "sleep"@) || contains_seq(lower, "tired"@) {
        "Sleep difficulties can really impact how we feel during the day. Good sleep hygiene is an important part of mental wellness. Have you noticed any patterns in what helps or hinders your sleep?"@
    } else if contains_seq(lower, "thanks"@) || contains_seq(lower, "thank"@) || contains_seq(
        lower,
        "helpful"@,
    ) {
        "I'm glad you're finding our conversation helpful. Remember, the work you're doing to understand yourself and develop coping strategies is really important. How are you feeling about continuing to explore these topics?"@
    } else if contains_seq(lower, "work"@) || contains_seq(lower, "job"@) {
        "Work-related stress is very common. It sounds like your professional life is weighing on you. Can you help me understand what specific aspects of work are most challenging for you right now?"@
    } else if contains_seq(lower, "family"@) || contains_seq(lower, "relationship"@) {
        "Relationships can be both a source of support and stress. It sounds like there's something important happening in your relationships. Would you like to share more about what's on your mind?"@
    } else if session_count == 0 {
        "Hello, and welcome to our session. I'm here to listen and support you as we explore what's on your mind. This is a safe space where you can share your thoughts and feelings. What would you like to talk about today?"@
    } else {
        "I appreciate you sharing that with me. It sounds like there's a lot on your mind. Can you help me understand more about what you're experiencing? Remember, there's no rush - we can take this at whatever pace feels comfortable for you."@
    }
}

/// The canned reply for one input, per `mock_response_spec`.
pub fn generate_mock_response(input: &str, context: &TherapeuticContext) -> (r: String)
    ensures
        r@ == mock_response_spec(input@, context.session_count),
{
    let lower = lowercase(input);
    let l = lower.as_str();
    if contains_sub(l, "anxious") || contains_sub(l, "anxiety") {
        String::from_str(
            "I hear that you're feeling anxious. That's a very common experience, and it's important to acknowledge these feelings. Can you tell me more about what might be contributing to your anxiety right now? Sometimes talking through our worries can help us understand them better.",
        )
    } else if contains_sub(l, "sad") || contains_sub(l, "depressed") || contains_sub(l, "down") {
        String::from_str(
            "Thank you for sharing that you're feeling down. It takes courage to acknowledge difficult emotions. Remember that these feelings are temporary, even when they feel overwhelming. What has helped you cope with similar feelings in the past?",
        )
    } else if contains_sub(l, "stress") || contains_sub(l, "overwhelmed") {
        String::from_str(
            "Feeling stressed and overwhelmed is something many people experience. Let's take a moment to acknowledge that you're dealing with a lot right now. What's one small thing that might help you feel a bit more in control today?",
        )
    } else if contains_sub(l, "sleep") || contains_sub(l, "tired") {
        String::from_str(
            "Sleep difficulties can really impact how we feel during the day. Good sleep hygiene is an important part of mental wellness. Have you noticed any patterns in what helps or hinders your sleep?",
        )
    } else if contains_sub(l, "thanks") || contains_sub(l, "thank") || contains_sub(l, "helpful") {
        String::from_str(
            "I'm glad you're finding our conversation helpful. Remember, the work you're doing to understand yourself and develop coping strategies is really important. How are you feeling about continuing to explore these topics?",
        )
    } else if contains_sub(l, "work") || contains_sub(l, "job") {
        String::from_str(
            "Work-related stress is very common. It sounds like your professional life is weighing on you. Can you help me understand what specific aspects of work are most challenging for you right now?",
        )
    } else if contains_sub(l, "family") || contains_sub(l, "relationship") {
        String::from_str(
            "Relationships can be both a source of support and stress. It sounds like there's something important happening in your relationships. Would you like to share more about what's on your mind?",
        )
    } else if context.session_count == 0 {
        String::from_str(
            "Hello, and welcome to our session. I'm here to listen and support you as we explore what's on your mind. This is a safe space where you can share your thoughts and feelings. What would you like to talk about today?",
        )
    } else {
        String::from_str(
            "I appreciate you sharing that with me. It sounds like there's a lot on your mind. Can you help me understand more about what you're experiencing? Remember, there's no rush - we can take this at whatever pace feels comfortable for you.",
        )
    }
}

} // verus!
