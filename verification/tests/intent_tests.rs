use chiron::intent::IntentDetector;
use chiron::intent::ResearchIntent;
use chiron::intent::extract_research_topic;
use chiron::intent::extract_question_topic;
use chiron::intent::extract_url;

#[test]
fn test_url_detection() {
    let detector = IntentDetector::new();

    // Test direct URL
    let input = "Can you read https://en.wikipedia.org/wiki/Depression";
    if let ResearchIntent::DirectUrl(url) = detector.detect_intent(input) {
        assert_eq!(url, "https://en.wikipedia.org/wiki/Depression");
    } else {
        panic!("Expected DirectUrl intent");
    }

    // Test markdown link
    let input = "Check out [this article](https://www.psychologytoday.com/anxiety)";
    if let ResearchIntent::DirectUrl(url) = detector.detect_intent(input) {
        assert_eq!(url, "https://www.psychologytoday.com/anxiety");
    } else {
        panic!("Expected DirectUrl intent");
    }
}

#[test]
fn test_url_token_extraction() {
    // The token runs to whitespace and never takes a closing parenthesis.
    assert_eq!(
        extract_url("see http://example.org/a and more"),
        Some("http://example.org/a".to_string())
    );
    assert_eq!(extract_url("(http://example.org/b)"), Some("http://example.org/b".to_string()));
    // A scheme with nothing after it is no URL token.
    assert_eq!(extract_url("broken http:// end"), None);
    assert_eq!(extract_url("no links here"), None);
}

#[test]
fn test_explicit_research_classification() {
    let detector = IntentDetector::new();
    match detector.detect_intent("research depression") {
        ResearchIntent::ExplicitResearch(terms) => {
            assert_eq!(terms, vec!["depression".to_string()]);
        }
        _ => panic!("Expected ExplicitResearch intent"),
    }
    // Case-insensitive: the trigger is found in the lowercased input.
    match detector.detect_intent("RESEARCH Depression") {
        ResearchIntent::ExplicitResearch(terms) => {
            assert_eq!(terms, vec!["depression".to_string()]);
        }
        _ => panic!("Expected ExplicitResearch intent"),
    }
}

#[test]
fn test_research_topic_extraction() {
    // The first matching phrase is removed and the rest trimmed.
    assert_eq!(extract_research_topic("research depression"), "depression");
    // A leading "the" is stripped from the topic.
    assert_eq!(extract_research_topic("research the brain"), "brain");
    // A too-short remainder falls back to the fixed topic.
    assert_eq!(extract_research_topic("research ab"), "general topic");
    assert_eq!(extract_research_topic("research"), "general topic");
    // Every leading "the " is stripped, not just the first.
    assert_eq!(extract_research_topic("research the the car"), "car");
}

#[test]
fn test_question_classification() {
    let detector = IntentDetector::new();
    match detector.detect_intent("what are panic attacks?") {
        ResearchIntent::SuggestedResearch(terms) => {
            assert_eq!(terms, vec!["panic attacks".to_string()]);
        }
        _ => panic!("Expected SuggestedResearch intent"),
    }
    match detector.detect_intent("how does therapy work?") {
        ResearchIntent::SuggestedResearch(terms) => {
            assert_eq!(terms, vec!["therapy".to_string()]);
        }
        _ => panic!("Expected SuggestedResearch intent"),
    }
}

#[test]
fn test_question_topic_extraction() {
    assert_eq!(extract_question_topic("what are panic attacks?"), "panic attacks");
    assert_eq!(extract_question_topic("how does sleep work"), "sleep");
    // The capture stops at the first question mark.
    assert_eq!(extract_question_topic("what are nightmares? and why"), "nightmares");
    // No template matches: empty.
    assert_eq!(extract_question_topic("why?"), "");
}

#[test]
fn test_no_intent() {
    let detector = IntentDetector::new();
    match detector.detect_intent("I feel fine today") {
        ResearchIntent::NoResearch => {}
        _ => panic!("Expected NoResearch intent"),
    }
}

#[test]
fn test_intent_detection_is_idempotent() {
    let detector = IntentDetector::new();
    for input in [
        "research depression",
        "Can you read https://en.wikipedia.org/wiki/Depression",
        "what are panic attacks?",
        "I feel fine today",
    ] {
        let first = detector.detect_intent(input);
        let second = detector.detect_intent(input);
        assert_eq!(first, second);
    }
}
