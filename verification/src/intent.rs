//! Pattern-based classification of free text into a research intent.
//!
//! The classifier is a fixed rule table, applied in priority order: a
//! `http(s)://` URL anywhere in the text wins, then an explicit
//! research trigger phrase, then a question pattern.  Classification is
//! a pure function of the input text and the fixed tables.

use vstd::prelude::*;
use crate::text::contains_seq;
use crate::text::contains_sub;
use crate::text::find_char_from;
use crate::text::find_from;
use crate::text::is_space;
use crate::text::is_space_char;
use crate::text::lemma_find_from;
use crate::text::matches_at;
use crate::text::matches_at_exec;
use crate::text::replace_all;
use crate::text::replace_spec;
use crate::text::starts_with;
use crate::text::starts_with_exec;
use crate::text::trim_exec;
use crate::text::trim_spec;
use crate::text::trim_start_matches_exec;
use crate::text::trim_start_matches_spec;

verus! {

/// The lowercased form of `s`, as `str::to_lowercase` computes it.
pub uninterp spec fn lower_of(s: Seq<char>) -> Seq<char>;

/// Relies on str::to_lowercase: the lowercased text is a function of
/// the characters alone.
#[verifier::external_body]
pub(crate) fn lowercase(s: &str) -> (r: String)
    ensures
        r@ == lower_of(s@),
{
    s.to_lowercase()
}

/// Research intent detected in one user message.  Exactly one variant
/// per classification; the variants are mutually exclusive and
/// priority-ordered.
#[derive(Debug, Clone, PartialEq, Eq)]
pub enum ResearchIntent {
    /// A URL was given directly: research it without asking.
    DirectUrl(String),
    /// An explicit research request: research the topics without asking.
    ExplicitResearch(Vec<String>),
    /// A bare question suggests research: ask the user first.
    SuggestedResearch(Vec<String>),
    /// Nothing to research.
    NoResearch,
}

/// Mathematical image of a `ResearchIntent`.
pub enum IntentView {
    DirectUrl(Seq<char>),
    ExplicitResearch(Seq<Seq<char>>),
    SuggestedResearch(Seq<Seq<char>>),
    NoResearch,
}

/// The abstract value a `ResearchIntent` stands for.
pub open spec fn intent_of(r: ResearchIntent) -> IntentView {
    match r {
        ResearchIntent::DirectUrl(u) => IntentView::DirectUrl(u@),
        ResearchIntent::ExplicitResearch(ts) => IntentView::ExplicitResearch(ts.deep_view()),
        ResearchIntent::SuggestedResearch(ts) => IntentView::SuggestedResearch(ts.deep_view()),
        ResearchIntent::NoResearch => IntentView::NoResearch,
    }
}

/// A character that may stand inside a URL token: anything but
/// whitespace and a closing parenthesis.
pub open spec fn is_url_char(c: char) -> bool {
    !is_space_char(c) && c != ')'
}

/// A URL token begins at `j`: a `http://` or `https://` scheme followed
/// by at least one URL character.
pub open spec fn is_url_start(s: Seq<char>, j: int) -> bool {
    (matches_at(s, "https://"@, j) && j + 8 < s.len() && is_url_char(s[j + 8])) || (matches_at(
        s,
        "http://"@,
        j,
    ) && j + 7 < s.len() && is_url_char(s[j + 7]))
}

/// The leftmost position at or after `i` where a URL token begins.
pub open spec fn url_find(s: Seq<char>, i: int) -> Option<int>
    decreases s.len() - i,
{
    if i < 0 || i >= s.len() {
        None
    } else if is_url_start(s, i) {
        Some(i)
    } else {
        url_find(s, i + 1)
    }
}

/// The end of the URL token that begins at `i`: the first position at
/// or after `i` holding no URL character.
pub open spec fn url_token_end(s: Seq<char>, i: int) -> int
    decreases s.len() - i,
{
    if i < 0 || i >= s.len() {
        i
    } else if is_url_char(s[i]) {
        url_token_end(s, i + 1)
    } else {
        i
    }
}

/// The leftmost URL token in `s`, if any.
pub open spec fn extract_url_spec(s: Seq<char>) -> Option<Seq<char>> {
    match url_find(s, 0) {
        Option::None => Option::None,
        Option::Some(j) => Option::Some(s.subrange(j, url_token_end(s, j))),
    }
}

proof fn lemma_url_find_step(s: Seq<char>, i: int)
    requires
        0 <= i,
        !is_url_start(s, i),
    ensures
        url_find(s, i) == url_find(s, i + 1),
{
}

/// Whether `c` may stand inside a URL token.
pub fn is_url_char_exec(c: char) -> (r: bool)
    ensures
        r == is_url_char(c),
{
    !is_space(c) && c != ')'
}

fn is_url_start_exec(s: &str, n: usize, j: usize) -> (r: bool)
    requires
        n == s@.len(),
        j < n,
    ensures
        r == is_url_start(s@, j as int),
{
    if matches_at_exec(s, "https://", j) && n - j > 8 && is_url_char_exec(s.get_char(j + 8)) {
        return true;
    }
    if matches_at_exec(s, "http://", j) && n - j > 7 && is_url_char_exec(s.get_char(j + 7)) {
        return true;
    }
    false
}

/// The leftmost URL token in the input, if any: a `http(s)://` scheme
/// and the run of characters after it up to whitespace or a closing
/// parenthesis.
pub fn extract_url(input: &str) -> (r: Option<String>)
    ensures
        match r {
            Option::Some(u) => extract_url_spec(input@) == Option::Some(u@),
            Option::None => extract_url_spec(input@) is None,
        },
{
    let n = input.unicode_len();
    let mut i: usize = 0;
    while i < n
        invariant
            n == input@.len(),
            i <= n,
            url_find(input@, 0) == url_find(input@, i as int),
        decreases n - i,
    {
        if is_url_start_exec(input, n, i) {
            // scan to the end of the token
            let mut e: usize = i;
            while e < n && is_url_char_exec(input.get_char(e))
                invariant
                    n == input@.len(),
                    i <= e <= n,
                    url_token_end(input@, i as int) == url_token_end(input@, e as int),
                decreases n - e,
            {
                e = e + 1;
            }
            proof {
                assert(url_token_end(input@, e as int) == e);
            }
            let tok = input.substring_char(i, e);
            proof {
                assert(tok@ =~= input@.subrange(i as int, e as int));
            }
            return Option::Some(tok.to_owned());
        }
        proof {
            lemma_url_find_step(input@, i as int);
        }
        i = i + 1;
    }
    Option::None
}

/// The first research trigger phrase (in fixed table order) that is a
/// substring of the lowercased input, if any.
pub open spec fn matched_keyword(s: Seq<char>) -> Option<Seq<char>> {
    if contains_seq(s, "research"@) {
        Option::Some("research"@)
    } else if contains_seq(s, "tell me about"@) {
        Option::Some("tell me about"@)
    } else if contains_seq(s, "what is"@) {
        Option::Some("what is"@)
    } else if contains_seq(s, "explain"@) {
        Option::Some("explain"@)
    } else if contains_seq(s, "look up"@) {
        Option::Some("look up"@)
    } else if contains_seq(s, "find information"@) {
        Option::Some("find information"@)
    } else if contains_seq(s, "search for"@) {
        Option::Some("search for"@)
    } else if contains_seq(s, "more about"@) {
        Option::Some("more about"@)
    } else if contains_seq(s, "definition of"@) {
        Option::Some("definition of"@)
    } else if contains_seq(s, "can we research"@) {
        Option::Some("can we research"@)
    } else if contains_seq(s, "let's research"@) {
        Option::Some("let's research"@)
    } else if contains_seq(s, "research this"@) {
        Option::Some("research this"@)
    } else if contains_seq(s, "research further"@) {
        Option::Some("research further"@)
    } else {
        Option::None
    }
}

/// The first research trigger phrase contained in the (lowercased)
/// input, in fixed table order.
pub fn first_matching_keyword(lower: &str) -> (r: Option<&'static str>)
    ensures
        match r {
            Option::Some(k) => matched_keyword(lower@) == Option::Some(k@),
            Option::None => matched_keyword(lower@) is None,
        },
{
    if contains_sub(lower, "research") {
        Option::Some("research")
    } else if contains_sub(lower, "tell me about") {
        Option::Some("tell me about")
    } else if contains_sub(lower, "what is") {
        Option::Some("what is")
    } else if contains_sub(lower, "explain") {
        Option::Some("explain")
    } else if contains_sub(lower, "look up") {
        Option::Some("look up")
    } else if contains_sub(lower, "find information") {
        Option::Some("find information")
    } else if contains_sub(lower, "search for") {
        Option::Some("search for")
    } else if contains_sub(lower, "more about") {
        Option::Some("more about")
    } else if contains_sub(lower, "definition of") {
        Option::Some("definition of")
    } else if contains_sub(lower, "can we research") {
        Option::Some("can we research")
    } else if contains_sub(lower, "let's research") {
        Option::Some("let's research")
    } else if contains_sub(lower, "research this") {
        Option::Some("research this")
    } else if contains_sub(lower, "research further") {
        Option::Some("research further")
    } else {
        Option::None
    }
}

/// The topic left of an explicit research request: the first matching
/// trigger phrase is removed from the text, the rest is trimmed, a
/// leading "the " is stripped, and a too-short remainder falls back to
/// the fixed topic "general topic".
pub open spec fn research_topic_spec(lower: Seq<char>) -> Seq<char> {
    let base = match matched_keyword(lower) {
        Option::Some(k) => trim_spec(replace_spec(lower, k, Seq::empty())),
        Option::None => lower,
    };
    let cleaned = trim_spec(trim_start_matches_spec(base, "the "@));
    if cleaned.len() < 3 {
        "general topic"@
    } else {
        cleaned
    }
}

/// Extract the research topic from an already-lowercased input, per
/// `research_topic_spec`.
pub fn extract_research_topic(input: &str) -> (r: String)
    ensures
        r@ == research_topic_spec(input@),
{
    let base: String = match first_matching_keyword(input) {
        Option::Some(k) => {
            let replaced = replace_all(input, k, "");
            proof {
                reveal_strlit("");
            }
            let trimmed = trim_exec(replaced.as_str());
            proof {
                assert(""@ =~= Seq::<char>::empty());
            }
            trimmed.to_owned()
        },
        Option::None => input.to_owned(),
    };
    proof {
        reveal_strlit("the ");
    }
    let stripped = trim_start_matches_exec(base.as_str(), "the ");
    let cleaned = trim_exec(stripped);
    if cleaned.unicode_len() < 3 {
        String::from_str("general topic")
    } else {
        cleaned.to_owned()
    }
}

/// A captured question topic, cleaned: trimmed, a leading "the "
/// stripped, trimmed again.
pub open spec fn clean_topic(c: Seq<char>) -> Seq<char> {
    trim_spec(trim_start_matches_spec(trim_spec(c), "the "@))
}

fn clean_topic_exec(c: &str) -> (r: String)
    ensures
        r@ == clean_topic(c@),
{
    proof {
        reveal_strlit("the ");
    }
    let t = trim_exec(c);
    let stripped = trim_start_matches_exec(t, "the ");
    trim_exec(stripped).to_owned()
}

/// The end of a lazily-captured topic that starts at `from - 1`: the
/// first `?` at or after `from`, or the end of the text.
pub open spec fn first_q_end(s: Seq<char>, from: int) -> int {
    match find_from(s, seq!['?'], from) {
        Option::Some(q) => q,
        Option::None => s.len() as int,
    }
}

/// The topic captured by a question template of the shape
/// "&lt;prefix&gt; X" with `X` running to the first `?` or the end,
/// cleaned; `None` when the prefix is absent or ends the text.
pub open spec fn try_template_prefix(s: Seq<char>, p: Seq<char>) -> Option<Seq<char>> {
    match find_from(s, p, 0) {
        Option::None => Option::None,
        Option::Some(j) => {
            let st = j + p.len();
            if st < s.len() {
                Option::Some(clean_topic(s.subrange(st, first_q_end(s, st + 1))))
            } else {
                Option::None
            }
        },
    }
}

/// The first position at or after `k` where " work" occurs followed by
/// `?` or the end of the text.
pub open spec fn find_work_end(s: Seq<char>, k: int) -> Option<int>
    decreases s.len() - k,
{
    if k < 0 || k + 5 > s.len() {
        Option::None
    } else if matches_at(s, " work"@, k) && (k + 5 == s.len() || s[k + 5] == '?') {
        Option::Some(k)
    } else {
        find_work_end(s, k + 1)
    }
}

/// The topic captured by a question template of the shape
/// "&lt;prefix&gt; X work" with `X` lazily captured, cleaned; `None`
/// when the template does not match.
pub open spec fn try_template_wrap(s: Seq<char>, p: Seq<char>) -> Option<Seq<char>> {
    match find_from(s, p, 0) {
        Option::None => Option::None,
        Option::Some(j) => match find_work_end(s, j + p.len() + 1) {
            Option::None => Option::None,
            Option::Some(k) => Option::Some(clean_topic(s.subrange(j + p.len(), k))),
        },
    }
}

/// Accept a cleaned candidate topic only if it is longer than two
/// characters; otherwise fall through to the rest of the cascade.
pub open spec fn pick_topic(c: Option<Seq<char>>, rest: Seq<char>) -> Seq<char> {
    match c {
        Option::Some(t) => if t.len() > 2 {
            t
        } else {
            rest
        },
        Option::None => rest,
    }
}

/// The topic a question suggests, per the ordered template cascade;
/// empty when no template yields a long-enough topic.
pub open spec fn question_topic_spec(s: Seq<char>) -> Seq<char> {
    pick_topic(
        try_template_prefix(s, "what is "@),
        pick_topic(
            try_template_prefix(s, "what are "@),
            pick_topic(
                try_template_wrap(s, "how does "@),
                pick_topic(
                    try_template_wrap(s, "how do "@),
                    pick_topic(
                        try_template_prefix(s, "tell me about "@),
                        pick_topic(try_template_prefix(s, "explain "@), Seq::empty()),
                    ),
                ),
            ),
        ),
    )
}

proof fn lemma_work_end_step(s: Seq<char>, k: int)
    requires
        0 <= k,
        !(matches_at(s, " work"@, k) && (k + 5 == s.len() || s[k + 5] == '?')),
    ensures
        find_work_end(s, k) == find_work_end(s, k + 1),
{
}

fn find_work_end_exec(s: &str, start: usize) -> (r: Option<usize>)
    ensures
        match r {
            Option::Some(k) => find_work_end(s@, start as int) == Option::Some(k as int),
            Option::None => find_work_end(s@, start as int) is None,
        },
{
    proof {
        reveal_strlit(" work");
    }
    let n = s.unicode_len();
    let mut k = start;
    loop
        invariant
            n == s@.len(),
            start <= k,
            find_work_end(s@, start as int) == find_work_end(s@, k as int),
        decreases n + 5 - k,
    {
        if k > n || n - k < 5 {
            return Option::None;
        }
        if matches_at_exec(s, " work", k) && (n - k == 5 || s.get_char(k + 5) == '?') {
            return Option::Some(k);
        }
        proof {
            lemma_work_end_step(s@, k as int);
        }
        k = k + 1;
    }
}

fn try_prefix_exec(s: &str, p: &str) -> (r: Option<String>)
    ensures
        match r {
            Option::Some(t) => try_template_prefix(s@, p@) == Option::Some(t@),
            Option::None => try_template_prefix(s@, p@) is None,
        },
{
    let n = s.unicode_len();
    match crate::text::find_sub(s, p) {
        Option::None => Option::None,
        Option::Some(j) => {
            proof {
                lemma_find_from(s@, p@, 0);
            }
            let np = p.unicode_len();
            let st = j + np;
            if st < n {
                let e = match find_char_from(s, '?', st + 1) {
                    Option::Some(q) => {
                        proof {
                            lemma_find_from(s@, seq!['?'], st + 1);
                        }
                        q
                    },
                    Option::None => n,
                };
                let cap = s.substring_char(st, e);
                proof {
                    assert(cap@ =~= s@.subrange(st as int, first_q_end(s@, st + 1)));
                }
                Option::Some(clean_topic_exec(cap))
            } else {
                Option::None
            }
        },
    }
}

fn try_wrap_exec(s: &str, p: &str) -> (r: Option<String>)
    ensures
        match r {
            Option::Some(t) => try_template_wrap(s@, p@) == Option::Some(t@),
            Option::None => try_template_wrap(s@, p@) is None,
        },
{
    let n = s.unicode_len();
    match crate::text::find_sub(s, p) {
        Option::None => Option::None,
        Option::Some(j) => {
            proof {
                lemma_find_from(s@, p@, 0);
            }
            let np = p.unicode_len();
            let st = j + np;
            if st == n {
                proof {
                    assert(find_work_end(s@, st + 1) is None);
                }
                return Option::None;
            }
            match find_work_end_exec(s, st + 1) {
                Option::None => Option::None,
                Option::Some(k) => {
                    proof {
                        lemma_work_end_bounds(s@, st + 1);
                    }
                    let cap = s.substring_char(st, k);
                    proof {
                        assert(cap@ =~= s@.subrange(st as int, k as int));
                    }
                    Option::Some(clean_topic_exec(cap))
                },
            }
        },
    }
}

proof fn lemma_work_end_bounds(s: Seq<char>, k: int)
    ensures
        match find_work_end(s, k) {
            Option::Some(e) => k <= e && e + 5 <= s.len(),
            Option::None => true,
        },
    decreases s.len() - k,
{
    if k < 0 || k + 5 > s.len() {
    } else if matches_at(s, " work"@, k) && (k + 5 == s.len() || s[k + 5] == '?') {
    } else {
        lemma_work_end_bounds(s, k + 1);
    }
}

/// The topic a question suggests, extracted from an already-lowercased
/// input via the ordered template cascade; empty when no template
/// yields a long-enough topic.
pub fn extract_question_topic(input: &str) -> (r: String)
    ensures
        r@ == question_topic_spec(input@),
{
    match accept_topic(try_prefix_exec(input, "what is ")) {
        Option::Some(t) => return t,
        Option::None => {},
    }
    match accept_topic(try_prefix_exec(input, "what are ")) {
        Option::Some(t) => return t,
        Option::None => {},
    }
    match accept_topic(try_wrap_exec(input, "how does ")) {
        Option::Some(t) => return t,
        Option::None => {},
    }
    match accept_topic(try_wrap_exec(input, "how do ")) {
        Option::Some(t) => return t,
        Option::None => {},
    }
    match accept_topic(try_prefix_exec(input, "tell me about ")) {
        Option::Some(t) => return t,
        Option::None => {},
    }
    match accept_topic(try_prefix_exec(input, "explain ")) {
        Option::Some(t) => return t,
        Option::None => {},
    }
    String::new()
}

/// Whether the question branch of the classifier applies: the
/// lowercased input starts like a question or holds a question mark.
pub open spec fn question_shaped(lower: Seq<char>) -> bool {
    starts_with(lower, "what"@) || starts_with(lower, "how"@) || starts_with(lower, "why"@)
        || contains_seq(lower, "?"@)
}

/// The classification of one input text: a pure function of the text
/// and the fixed pattern tables, in priority order.  A URL anywhere in
/// the text wins; else an explicit research trigger phrase in the
/// lowercased text; else a question pattern with a long-enough topic;
/// else no research.
pub open spec fn intent_view(input: Seq<char>) -> IntentView {
    let lower = lower_of(input);
    if extract_url_spec(input) is Some {
        IntentView::DirectUrl(extract_url_spec(input)->Some_0)
    } else if matched_keyword(lower) is Some {
        IntentView::ExplicitResearch(seq![research_topic_spec(lower)])
    } else if question_shaped(lower) {
        let t = question_topic_spec(lower);
        if t.len() > 0 {
            IntentView::SuggestedResearch(seq![t])
        } else {
            IntentView::NoResearch
        }
    } else {
        IntentView::NoResearch
    }
}

/// Intent detection for research requests, built from two fixed
/// tables: URL-shaped patterns and research trigger phrases.
pub struct IntentDetector {}

impl IntentDetector {
    pub fn new() -> (r: IntentDetector) {
        IntentDetector {  }
    }

    /// Classify one user input, per `intent_view`.
    pub fn detect_intent(&self, input: &str) -> (r: ResearchIntent)
        ensures
            intent_of(r) == intent_view(input@),
    {
        match extract_url(input) {
            Option::Some(url) => {
                return ResearchIntent::DirectUrl(url);
            },
            Option::None => {},
        }
        let lower = lowercase(input);
        match first_matching_keyword(lower.as_str()) {
            Option::Some(_k) => {
                let topic = extract_research_topic(lower.as_str());
                let mut ts: Vec<String> = Vec::new();
                ts.push(topic);
                proof {
                    assert(ts.deep_view() =~= seq![research_topic_spec(lower_of(input@))]);
                }
                return ResearchIntent::ExplicitResearch(ts);
            },
            Option::None => {},
        }
        if starts_with_exec(lower.as_str(), "what") || starts_with_exec(lower.as_str(), "how")
            || starts_with_exec(lower.as_str(), "why") || contains_sub(lower.as_str(), "?") {
            let topic = extract_question_topic(lower.as_str());
            if topic.as_str().unicode_len() > 0 {
                let mut ts: Vec<String> = Vec::new();
                ts.push(topic);
                proof {
                    assert(ts.deep_view() =~= seq![question_topic_spec(lower_of(input@))]);
                }
                return ResearchIntent::SuggestedResearch(ts);
            }
        }
        ResearchIntent::NoResearch
    }
}

/// A URL always takes precedence: whenever the input holds a URL
/// token, classification yields exactly that URL, whatever the rest of
/// the text says.
pub proof fn lemma_url_takes_precedence(input: Seq<char>)
    requires
        extract_url_spec(input) is Some,
    ensures
        intent_view(input) == IntentView::DirectUrl(extract_url_spec(input)->Some_0),
{
}

/// Classification is a pure function of the input text: two calls on
/// the same text yield the same intent.
pub proof fn lemma_intent_deterministic(a: Seq<char>, b: Seq<char>)
    requires
        a == b,
    ensures
        intent_view(a) == intent_view(b),
{
}

fn accept_topic(c: Option<String>) -> (r: Option<String>)
    ensures
        match c {
            Option::Some(t) => if t@.len() > 2 {
                r == Option::Some(t)
            } else {
                r is None
            },
            Option::None => r is None,
        },
{
    match c {
        Option::Some(t) => {
            if t.as_str().unicode_len() > 2 {
                Option::Some(t)
            } else {
                Option::None
            }
        },
        Option::None => Option::None,
    }
}

} // verus!
