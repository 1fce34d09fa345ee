//! Structured post-processing of a generation backend's reply.
//!
//! The backend is asked for a JSON object with a fixed shape.  A reply
//! that decodes cleanly becomes a `ProcessedResearch` as-is; any other
//! reply is degraded into a well-formed fallback — a malformed backend
//! reply must lower output quality, never fail the turn.

use vstd::prelude::*;
use crate::text::ends_with;
use crate::text::ends_with_exec;
use crate::text::starts_with;
use crate::text::starts_with_exec;
use crate::text::take_chars;
use crate::text::trim_exec;
use crate::text::trim_spec;

verus! {

/// Structured research content after backend analysis.
pub struct ProcessedResearch {
    pub summary: String,
    pub key_facts: Vec<String>,
    pub relevant_sections: Vec<String>,
    pub therapeutic_relevance: String,
}

/// The parse error message serde_json reports for `s`, or `None` when
/// `s` is valid JSON; a function of the text alone.
pub uninterp spec fn json_error_of(s: Seq<char>) -> Option<Seq<char>>;

/// The string held under `key` in the JSON object `s`: `None` when `s`
/// is not valid JSON, not an object, or `key` is absent or not a
/// string; a function of the two texts alone.
pub uninterp spec fn json_str_field(s: Seq<char>, key: Seq<char>) -> Option<Seq<char>>;

/// The array of strings held under `key` in the JSON object `s`:
/// `None` when `s` is not valid JSON, not an object, or `key` is
/// absent, not an array, or holds a non-string; a function of the two
/// texts alone.
pub uninterp spec fn json_str_list_field(s: Seq<char>, key: Seq<char>) -> Option<Seq<Seq<char>>>;

/// Relies on serde_json::from_str::<Value> and serde_json::Error's
/// display: the parse error text for an invalid JSON document, `None`
/// for a valid one.
#[verifier::external_body]
fn json_error_text(s: &str) -> (r: Option<String>)
    ensures
        match r {
            Option::Some(e) => json_error_of(s@) == Option::Some(e@),
            Option::None => json_error_of(s@) is None,
        },
{
    serde_json::from_str::<serde_json::Value>(s).err().map(|e| e.to_string())
}

/// Relies on serde_json::from_str::<Value>, Value::get and
/// Value::as_str: the string under `key` in the JSON object `s`.
#[verifier::external_body]
fn json_string_field(s: &str, key: &str) -> (r: Option<String>)
    ensures
        match r {
            Option::Some(v) => json_str_field(s@, key@) == Option::Some(v@),
            Option::None => json_str_field(s@, key@) is None,
        },
{
    let v: serde_json::Value = serde_json::from_str(s).ok()?;
    Some(v.get(key)?.as_str()?.to_string())
}

/// Relies on serde_json::from_str::<Value>, Value::get, Value::as_array
/// and Value::as_str: the array of strings under `key` in the JSON
/// object `s`; `None` when any element is not a string.
#[verifier::external_body]
fn json_string_list_field(s: &str, key: &str) -> (r: Option<Vec<String>>)
    ensures
        match r {
            Option::Some(v) => json_str_list_field(s@, key@) == Option::Some(v.deep_view()),
            Option::None => json_str_list_field(s@, key@) is None,
        },
{
    let v: serde_json::Value = serde_json::from_str(s).ok()?;
    let arr = v.get(key)?.as_array()?;
    arr.iter().map(|x| x.as_str().map(|t| t.to_string())).collect()
}

/// The backend reply with a leading/trailing markdown code fence
/// stripped, by a chain of fallbacks: the trimmed reply loses a
/// leading "```json"; where a step finds nothing to strip, it falls
/// back to the raw reply.
pub open spec fn cleaned_response_spec(resp: Seq<char>) -> Seq<char> {
    let t = trim_spec(resp);
    let a = if starts_with(t, "```json"@) {
        t.skip(7)
    } else {
        resp
    };
    let b = if ends_with(a, "```"@) {
        a.take(a.len() - 3)
    } else {
        resp
    };
    trim_spec(b)
}

/// The four research fields decoded from a JSON reply, when all are
/// present and well-typed.
pub open spec fn decoded_research(s: Seq<char>) -> Option<
    (Seq<char>, Seq<Seq<char>>, Seq<Seq<char>>, Seq<char>),
> {
    if json_str_field(s, "summary"@) is Some && json_str_list_field(s, "key_facts"@) is Some
        && json_str_list_field(s, "relevant_sections"@) is Some && json_str_field(
        s,
        "therapeutic_relevance"@,
    ) is Some {
        Option::Some(
            (
                json_str_field(s, "summary"@)->Some_0,
                json_str_list_field(s, "key_facts"@)->Some_0,
                json_str_list_field(s, "relevant_sections"@)->Some_0,
                json_str_field(s, "therapeutic_relevance"@)->Some_0,
            ),
        )
    } else {
        Option::None
    }
}

/// The first `n` characters of `s`, or all of it when shorter.
pub open spec fn take_n(s: Seq<char>, n: int) -> Seq<char> {
    if s.len() <= n {
        s
    } else {
        s.take(n)
    }
}

/// The error line recorded in a fallback result: the JSON parse error
/// when there is one, else a fixed note that the shape was wrong.
pub open spec fn fallback_error_line(cleaned: Seq<char>) -> Seq<char> {
    "Error: "@ + (match json_error_of(cleaned) {
        Option::Some(e) => e,
        Option::None => "response JSON is missing required fields"@,
    })
}

/// The structured fields the post-processor yields for a backend
/// reply: the decoded fields when the reply decodes, else the
/// documented fallback (truncated summary, two key facts recording the
/// failure, no sections, the fixed relevance note).
pub open spec fn processed_of(resp: Seq<char>) -> (
    Seq<char>,
    Seq<Seq<char>>,
    Seq<Seq<char>>,
    Seq<char>,
) {
    let cleaned = cleaned_response_spec(resp);
    match decoded_research(cleaned) {
        Option::Some(t) => t,
        Option::None => (
            take_n(cleaned, 300) + "..."@,
            seq![
                "JSON parsing failed - showing raw content"@,
                take_n(fallback_error_line(cleaned), 100),
            ],
            Seq::empty(),
            "Content available but needs manual processing"@,
        ),
    }
}


/// The fixed instruction handed to the generation backend: extract key
/// information about `query` from `content` and answer with only a
/// JSON object of the expected shape.
pub open spec fn prompt_spec(content: Seq<char>, query: Seq<char>) -> Seq<char> {
    "You are a mental health research assistant. Extract key information from this content about: "@
        + query + "\n\nContent:\n"@ + content
        + "\n\nIMPORTANT: Respond with ONLY a valid JSON object, no markdown formatting, no explanation. Use this exact structure:\n\n{\n    \"summary\": \"Write a 2-3 sentence summary of the main points\",\n    \"key_facts\": [\"Write 3-5 important facts as separate strings\"],\n    \"relevant_sections\": [\"List 2-3 main topic areas covered\"],\n    \"therapeutic_relevance\": \"Explain how this information helps with mental health treatment\"\n}\n\nJSON response:"@
}

/// Build the fixed generation prompt, per `prompt_spec`.
pub fn build_research_prompt(content: &str, query: &str) -> (r: String)
    ensures
        r@ == prompt_spec(content@, query@),
{
    let mut p = String::from_str(
        "You are a mental health research assistant. Extract key information from this content about: ",
    );
    p.append(query);
    p.append("\n\nContent:\n");
    p.append(content);
    p.append(
        "\n\nIMPORTANT: Respond with ONLY a valid JSON object, no markdown formatting, no explanation. Use this exact structure:\n\n{\n    \"summary\": \"Write a 2-3 sentence summary of the main points\",\n    \"key_facts\": [\"Write 3-5 important facts as separate strings\"],\n    \"relevant_sections\": [\"List 2-3 main topic areas covered\"],\n    \"therapeutic_relevance\": \"Explain how this information helps with mental health treatment\"\n}\n\nJSON response:",
    );
    p
}

/// Strip a code fence from the backend reply, per
/// `cleaned_response_spec`.
fn clean_response(response: &str) -> (r: String)
    ensures
        r@ == cleaned_response_spec(response@),
{
    proof {
        reveal_strlit("```json");
        reveal_strlit("```");
    }
    let t = trim_exec(response);
    let nt = t.unicode_len();
    let a: &str = if starts_with_exec(t, "```json") {
        let x = t.substring_char(7, nt);
        proof {
            assert(x@ =~= t@.skip(7));
        }
        x
    } else {
        response
    };
    let na = a.unicode_len();
    let b: &str = if ends_with_exec(a, "```") {
        let x = a.substring_char(0, na - 3);
        proof {
            assert(x@ =~= a@.take(a@.len() - 3));
        }
        x
    } else {
        response
    };
    trim_exec(b).to_owned()
}

/// Turn a backend reply into structured research content.  A reply
/// whose (fence-stripped) text decodes as a JSON object with the four
/// expected fields is returned as-is.  Every other reply degrades into
/// a fallback whose summary is the first 300 characters of the cleaned
/// reply plus an ellipsis, whose key facts record that parsing failed
/// (never empty), whose sections are empty and whose therapeutic
/// relevance is the fixed "needs manual processing" note.  The call
/// never fails.
pub fn parse_generation_response(response: &str) -> (r: ProcessedResearch)
    ensures
        r.summary@ == processed_of(response@).0,
        r.key_facts.deep_view() == processed_of(response@).1,
        r.relevant_sections.deep_view() == processed_of(response@).2,
        r.therapeutic_relevance@ == processed_of(response@).3,
{
    let cleaned = clean_response(response);
    let summary = json_string_field(cleaned.as_str(), "summary");
    let key_facts = json_string_list_field(cleaned.as_str(), "key_facts");
    let relevant_sections = json_string_list_field(cleaned.as_str(), "relevant_sections");
    let relevance = json_string_field(cleaned.as_str(), "therapeutic_relevance");
    match (summary, key_facts, relevant_sections, relevance) {
        (
            Option::Some(summary),
            Option::Some(key_facts),
            Option::Some(relevant_sections),
            Option::Some(therapeutic_relevance),
        ) => ProcessedResearch { summary, key_facts, relevant_sections, therapeutic_relevance },
        _ => {
            let mut summary = take_chars(cleaned.as_str(), 300).to_owned();
            summary.append("...");
            let error_line = match json_error_text(cleaned.as_str()) {
                Option::Some(e) => {
                    let mut line = String::from_str("Error: ");
                    line.append(e.as_str());
                    line
                },
                Option::None => String::from_str(
                    "Error: response JSON is missing required fields",
                ),
            };
            proof {
                reveal_strlit("Error: ");
                reveal_strlit("response JSON is missing required fields");
                reveal_strlit("Error: response JSON is missing required fields");
                assert("Error: response JSON is missing required fields"@ =~= "Error: "@
                    + "response JSON is missing required fields"@);
            }
            let mut key_facts: Vec<String> = Vec::new();
            key_facts.push(String::from_str("JSON parsing failed - showing raw content"));
            key_facts.push(take_chars(error_line.as_str(), 100).to_owned());
            proof {
                assert(key_facts.deep_view() =~~= seq![
                    "JSON parsing failed - showing raw content"@,
                    take_n(fallback_error_line(cleaned@), 100),
                ]);
            }
            ProcessedResearch {
                summary,
                key_facts,
                relevant_sections: Vec::new(),
                therapeutic_relevance: String::from_str(
                    "Content available but needs manual processing",
                ),
            }
        },
    }
}

/// A reply in which any of the four fields is missing or mistyped
/// always degrades into the documented fallback: the key facts are
/// never empty and the therapeutic relevance is the fixed note.
/// Together with the post-processor's contract this says the turn
/// never fails on a malformed backend reply, only loses quality.
pub proof fn lemma_fallback_is_wellformed(response: Seq<char>)
    requires
        decoded_research(cleaned_response_spec(response)) is None,
    ensures
        processed_of(response).1.len() > 0,
        processed_of(response).3 == "Content available but needs manual processing"@,
{
}

} // verus!
