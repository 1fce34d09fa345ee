//! The research agent: intent-driven retrieval with allow-list
//! enforcement and structured post-processing.
//!
//! Execution blocks on network work, so it is driven by the caller in
//! stages: `execute_start` classifies the input and decides what to
//! fetch (or ends the turn at once); `execute_after_fetch` turns the
//! fetch outcome into a generation prompt or a finished response;
//! `execute_after_generate` formats the final report.  The
//! encyclopedia-API path (`research_topic_*`) is staged the same way.
//! Every decision between the outside calls is verified here.

use vstd::prelude::*;
use crate::extract::extraction_ok;
use crate::extract::research_result_matches;
use crate::extract::build_research_result;
use crate::extract::ResearchResult;
use crate::intent::intent_of;
use crate::intent::intent_view;
use crate::intent::IntentDetector;
use crate::intent::IntentView;
use crate::intent::ResearchIntent;
use crate::postprocess::parse_generation_response;
use crate::postprocess::processed_of;
use crate::protocol::Agent;
use crate::protocol::AgentMetadata;
use crate::protocol::AgentRequest;
use crate::protocol::AgentResponse;
use crate::protocol::Capability;
use crate::text::replace_spec;
use crate::text::replace_all;
use crate::urlcheck::whitelisted_spec;
use crate::urlcheck::UrlValidator;

verus! {

/// The fixed confidence an intent maps to, in hundredths: a direct
/// URL is a perfect match, explicit research phrasing is strong, a
/// bare question is advisory but still clears the registry threshold,
/// and anything else cannot be handled.
pub open spec fn confidence_of(iv: IntentView) -> u32 {
    match iv {
        IntentView::DirectUrl(_) => 100,
        IntentView::ExplicitResearch(_) => 90,
        IntentView::SuggestedResearch(_) => 70,
        IntentView::NoResearch => 0,
    }
}

/// The topic actually researched: the first term, with a defensive
/// default when the list is empty.
pub open spec fn main_term_of(ts: Seq<Seq<char>>) -> Seq<char> {
    if ts.len() > 0 {
        ts[0]
    } else {
        "mental health"@
    }
}

/// The canonical encyclopedia article URL for a term.
pub open spec fn wiki_url_of(term: Seq<char>) -> Seq<char> {
    "https://en.wikipedia.org/wiki/"@ + replace_spec(term, " "@, "_"@)
}

/// The error prefix of the path taken: a direct fetch or an
/// encyclopedia search.
pub open spec fn err_prefix(wiki_search: bool) -> Seq<char> {
    if wiki_search {
        "\u{274c} Wikipedia search failed: "@
    } else {
        "\u{274c} Research failed: "@
    }
}

/// Bulleted key facts, one per line.
pub open spec fn bullets(facts: Seq<Seq<char>>, i: int) -> Seq<char>
    decreases facts.len() - i,
{
    if i < 0 || i >= facts.len() {
        Seq::empty()
    } else if i == facts.len() - 1 {
        "\u{2022} "@ + facts[i]
    } else {
        "\u{2022} "@ + facts[i] + "\n"@ + bullets(facts, i + 1)
    }
}

/// The formatted report for a directly fetched page.
pub open spec fn direct_report_spec(
    rr: ResearchResult,
    p: (Seq<char>, Seq<Seq<char>>, Seq<Seq<char>>, Seq<char>),
) -> Seq<char> {
    "\u{1f4da} **Research from "@ + rr.source_domain@ + "**\n\n**"@ + rr.title@ + "**\n\n"@ + p.0
        + "\n\n**Key Facts:**\n"@ + bullets(p.1, 0) + "\n\n**Therapeutic Relevance:** "@ + p.3
        + "\n\n*Source: "@ + rr.url@ + "*"@
}

/// The formatted report for an encyclopedia search.
pub open spec fn search_report_spec(
    term: Seq<char>,
    rr: ResearchResult,
    p: (Seq<char>, Seq<Seq<char>>, Seq<Seq<char>>, Seq<char>),
) -> Seq<char> {
    "\u{1f4da} **Research: "@ + term + "**\n\n**"@ + rr.title@ + "**\n\n"@ + p.0
        + "\n\n**Key Facts:**\n"@ + bullets(p.1, 0) + "\n\n**Therapeutic Relevance:** "@ + p.3
        + "\n\n*Source: "@ + rr.url@ + "*"@
}

/// Render bulleted key facts, per `bullets`.
fn bullets_exec(facts: &Vec<String>) -> (r: String)
    ensures
        r@ == bullets(facts.deep_view(), 0),
{
    let n = facts.len();
    let mut out = String::new();
    let mut i: usize = 0;
    proof {
        reveal_strlit("\u{2022} ");
        reveal_strlit("\n");
    }
    while i < n
        invariant
            n == facts@.len(),
            i <= n,
            if i == 0 {
                out@ == Seq::<char>::empty()
            } else if i < n {
                bullets(facts.deep_view(), 0) == out@ + "\n"@ + bullets(facts.deep_view(), i as int)
            } else {
                bullets(facts.deep_view(), 0) == out@
            },
        decreases n - i,
    {
        let ghost prev = out@;
        if i > 0 {
            out.append("\n");
        }
        out.append("\u{2022} ");
        out.append(facts[i].as_str());
        proof {
            let fs = facts.deep_view();
            assert(fs[i as int] == facts@[i as int]@);
            if i == 0 {
                assert(out@ =~= "\u{2022} "@ + fs[0]);
                if n > 1 {
                    assert(bullets(fs, 0) == "\u{2022} "@ + fs[0] + "\n"@ + bullets(fs, 1));
                    assert(bullets(fs, 0) =~= out@ + "\n"@ + bullets(fs, 1));
                } else {
                    assert(bullets(fs, 0) =~= out@);
                }
            } else {
                assert(out@ =~= prev + "\n"@ + ("\u{2022} "@ + fs[i as int]));
                if i < n - 1 {
                    assert(bullets(fs, i as int) == "\u{2022} "@ + fs[i as int] + "\n"@ + bullets(
                        fs,
                        i + 1,
                    ));
                    assert(bullets(fs, 0) =~= out@ + "\n"@ + bullets(fs, i + 1));
                } else {
                    assert(bullets(fs, i as int) == "\u{2022} "@ + fs[i as int]);
                    assert(bullets(fs, 0) =~= out@);
                }
            }
        }
        i = i + 1;
    }
    out
}

/// What the agent decided to do with one input.
pub enum ExecPlan {
    /// Fetch this URL (already allow-listed here), then post-process;
    /// `query` is what the generation backend is asked about and
    /// `wiki_search` tags the encyclopedia-search path for error
    /// wording.
    Fetch { url: String, query: String, wiki_search: bool },
    /// The turn ends at once with this response.
    Respond(AgentResponse),
}

/// The outcome of the HTTP fetch the caller performed: a transport
/// error's text, or the response's success flag, status line and body.
pub enum FetchOutcome {
    TransportError(String),
    Response { ok: bool, status: String, body: String },
}

/// What follows the fetch: a generation-backend call, or a finished
/// response.
pub enum AfterFetch {
    Generate { prompt: String, research: ResearchResult },
    Respond(AgentResponse),
}

/// Research agent for fetching mental-health information.
pub struct ResearchAgent {
    intent_detector: IntentDetector,
    url_validator: UrlValidator,
}

impl ResearchAgent {
    pub fn new() -> (r: ResearchAgent) {
        ResearchAgent { intent_detector: IntentDetector::new(), url_validator: UrlValidator::new() }
    }

    /// Classify one input (fast, pattern-based, pure).
    pub fn analyze_intent(&self, input: &str) -> (r: ResearchIntent)
        ensures
            intent_of(r) == intent_view(input@),
    {
        self.intent_detector.detect_intent(input)
    }

    /// Whether a URL passes the fixed allow-list.
    pub fn is_url_whitelisted(&self, url: &str) -> (r: bool)
        ensures
            r == whitelisted_spec(url@),
    {
        self.url_validator.is_whitelisted(url)
    }

    /// Start executing one request: classify the input and decide.  A
    /// direct URL is re-validated against the allow-list (defence in
    /// depth — the same check guards the fetch itself) and refused
    /// with confidence zero when it fails; an explicit research
    /// request turns into the canonical encyclopedia URL for its
    /// first term, validated the same way; a suggestion asks the user
    /// instead of fetching, at its unchanged advisory confidence; an
    /// empty intent ends the turn with a neutral note.
    pub fn execute_start(&self, input: &str, elapsed_ms: u64) -> (r: ExecPlan)
        ensures
            ({
                let iv = intent_view(input@);
                match r {
                    ExecPlan::Fetch { url, query, wiki_search } => match iv {
                        IntentView::DirectUrl(u) => url@ == u && whitelisted_spec(u) && query@
                            == input@ && wiki_search == false,
                        IntentView::ExplicitResearch(ts) => url@ == wiki_url_of(main_term_of(ts))
                            && whitelisted_spec(url@) && query@ == main_term_of(ts) && wiki_search
                            == true,
                        _ => false,
                    },
                    ExecPlan::Respond(resp) => match iv {
                        IntentView::DirectUrl(u) => !whitelisted_spec(u) && plain_response_matches(
                            resp,
                            "\u{274c} URL not whitelisted. Only Wikipedia and Psychology Today are supported."@,
                            0,
                            elapsed_ms,
                        ),
                        IntentView::ExplicitResearch(ts) => !whitelisted_spec(
                            wiki_url_of(main_term_of(ts)),
                        ) && plain_response_matches(
                            resp,
                            err_prefix(true) + "URL not whitelisted: "@ + wiki_url_of(
                                main_term_of(ts),
                            ),
                            0,
                            elapsed_ms,
                        ),
                        IntentView::SuggestedResearch(ts) => plain_response_matches(
                            resp,
                            "\u{1f50d} I noticed you mentioned '"@ + main_term_of(ts)
                                + "'. Would you like me to research this topic for you? I can search Wikipedia for evidence-based information."@,
                            70,
                            elapsed_ms,
                        ),
                        IntentView::NoResearch => plain_response_matches(
                            resp,
                            "I don't see any research requests in your message."@,
                            0,
                            elapsed_ms,
                        ),
                    },
                }
            }),
    {
        match self.analyze_intent(input) {
            ResearchIntent::DirectUrl(url) => {
                if self.is_url_whitelisted(url.as_str()) {
                    ExecPlan::Fetch { url, query: input.to_owned(), wiki_search: false }
                } else {
                    ExecPlan::Respond(
                        plain_response(
                            String::from_str(
                                "\u{274c} URL not whitelisted. Only Wikipedia and Psychology Today are supported.",
                            ),
                            0,
                            elapsed_ms,
                        ),
                    )
                }
            },
            ResearchIntent::ExplicitResearch(terms) => {
                let term: String = if terms.len() > 0 {
                    terms[0].clone()
                } else {
                    String::from_str("mental health")
                };
                proof {
                    if terms.deep_view().len() > 0 {
                        assert(terms.deep_view()[0] == terms@[0]@);
                    }
                }
                let mut url = String::from_str("https://en.wikipedia.org/wiki/");
                let underscored = replace_all(term.as_str(), " ", "_");
                url.append(underscored.as_str());
                if self.is_url_whitelisted(url.as_str()) {
                    ExecPlan::Fetch { url, query: term, wiki_search: true }
                } else {
                    let mut content = String::from_str(
                        "\u{274c} Wikipedia search failed: URL not whitelisted: ",
                    );
                    content.append(url.as_str());
                    proof {
                        reveal_strlit("\u{274c} Wikipedia search failed: URL not whitelisted: ");
                        reveal_strlit("\u{274c} Wikipedia search failed: ");
                        reveal_strlit("URL not whitelisted: ");
                        assert("\u{274c} Wikipedia search failed: URL not whitelisted: "@
                            =~= "\u{274c} Wikipedia search failed: "@ + "URL not whitelisted: "@);
                        assert(content@ =~= err_prefix(true) + "URL not whitelisted: "@
                            + wiki_url_of(main_term_of(intent_view(input@)->ExplicitResearch_0)));
                    }
                    ExecPlan::Respond(plain_response(content, 0, elapsed_ms))
                }
            },
            ResearchIntent::SuggestedResearch(terms) => {
                let term: String = if terms.len() > 0 {
                    terms[0].clone()
                } else {
                    String::from_str("mental health")
                };
                proof {
                    if terms.deep_view().len() > 0 {
                        assert(terms.deep_view()[0] == terms@[0]@);
                    }
                }
                let mut content = String::from_str("\u{1f50d} I noticed you mentioned '");
                content.append(term.as_str());
                content.append(
                    "'. Would you like me to research this topic for you? I can search Wikipedia for evidence-based information.",
                );
                ExecPlan::Respond(plain_response(content, 70, elapsed_ms))
            },
            ResearchIntent::NoResearch => ExecPlan::Respond(
                plain_response(
                    String::from_str("I don't see any research requests in your message."),
                    0,
                    elapsed_ms,
                ),
            ),
        }
    }

    /// Continue after the caller fetched the planned URL: a transport
    /// error or a non-success status ends the turn with the path's
    /// error message at confidence zero; a fetched page either
    /// extracts into a research result and a generation prompt, or
    /// ends the turn with the fixed extraction-failure message.
    pub fn execute_after_fetch(
        &self,
        url: &str,
        query: &str,
        wiki_search: bool,
        outcome: FetchOutcome,
        now_ts: i64,
        elapsed_ms: u64,
    ) -> (r: AfterFetch)
        ensures
            ({
                match outcome {
                    FetchOutcome::TransportError(e) => r matches AfterFetch::Respond(resp)
                        && plain_response_matches(
                        resp,
                        err_prefix(wiki_search) + e@,
                        0,
                        elapsed_ms,
                    ),
                    FetchOutcome::Response { ok, status, body } => {
                        if !ok {
                            r matches AfterFetch::Respond(resp) && plain_response_matches(
                                resp,
                                err_prefix(wiki_search) + "HTTP error "@ + status@ + ": "@ + url@,
                                0,
                                elapsed_ms,
                            )
                        } else if !extraction_ok(body@, url@) {
                            r matches AfterFetch::Respond(resp) && plain_response_matches(
                                resp,
                                err_prefix(wiki_search) + "Could not extract content from HTML"@,
                                0,
                                elapsed_ms,
                            )
                        } else {
                            r matches AfterFetch::Generate { prompt, research }
                                && research_result_matches(research, url@, body@, now_ts)
                                && prompt@ == crate::postprocess::prompt_spec(
                                research.content@,
                                query@,
                            )
                        }
                    },
                }
            }),
    {
        let prefix: &str = if wiki_search {
            "\u{274c} Wikipedia search failed: "
        } else {
            "\u{274c} Research failed: "
        };
        match outcome {
            FetchOutcome::TransportError(e) => {
                let mut content = prefix.to_owned();
                content.append(e.as_str());
                AfterFetch::Respond(plain_response(content, 0, elapsed_ms))
            },
            FetchOutcome::Response { ok, status, body } => {
                if !ok {
                    let mut content = prefix.to_owned();
                    content.append("HTTP error ");
                    content.append(status.as_str());
                    content.append(": ");
                    content.append(url);
                    AfterFetch::Respond(plain_response(content, 0, elapsed_ms))
                } else {
                    match build_research_result(url, body.as_str(), now_ts) {
                        Option::Some(research) => {
                            let prompt = crate::postprocess::build_research_prompt(
                                research.content.as_str(),
                                query,
                            );
                            AfterFetch::Generate { prompt, research }
                        },
                        Option::None => {
                            let mut content = prefix.to_owned();
                            content.append("Could not extract content from HTML");
                            AfterFetch::Respond(plain_response(content, 0, elapsed_ms))
                        },
                    }
                }
            },
        }
    }

    /// Finish after the caller ran the generation backend: a backend
    /// transport error propagates (the turn aborts — no meaningful
    /// partial response exists without the backend); a reply is
    /// post-processed (with its degraded fallback), formatted into the
    /// report for the path taken, and returned at the fixed research
    /// confidence with the source URL both advertised and cached.
    pub fn execute_after_generate(
        &self,
        wiki_search: bool,
        query: &str,
        research: ResearchResult,
        generation: Result<String, String>,
        elapsed_ms: u64,
    ) -> (r: Result<AgentResponse, String>)
        ensures
            ({
                match generation {
                    Result::Err(e) => r == Result::<AgentResponse, String>::Err(e),
                    Result::Ok(text) => r matches Result::Ok(resp) && completed_response_matches(
                        resp,
                        if wiki_search {
                            search_report_spec(query@, research, processed_of(text@))
                        } else {
                            direct_report_spec(research, processed_of(text@))
                        },
                        research.url@,
                        elapsed_ms,
                    ),
                }
            }),
    {
        let text = match generation {
            Result::Ok(t) => t,
            Result::Err(e) => {
                return Result::Err(e);
            },
        };
        let processed = parse_generation_response(text.as_str());
        let facts = bullets_exec(&processed.key_facts);
        let mut content: String;
        if wiki_search {
            content = String::from_str("\u{1f4da} **Research: ");
            content.append(query);
        } else {
            content = String::from_str("\u{1f4da} **Research from ");
            content.append(research.source_domain.as_str());
        }
        content.append("**\n\n**");
        content.append(research.title.as_str());
        content.append("**\n\n");
        content.append(processed.summary.as_str());
        content.append("\n\n**Key Facts:**\n");
        content.append(facts.as_str());
        content.append("\n\n**Therapeutic Relevance:** ");
        content.append(processed.therapeutic_relevance.as_str());
        content.append("\n\n*Source: ");
        content.append(research.url.as_str());
        content.append("*");
        Result::Ok(completed_response(content, research.url, elapsed_ms))
    }
}


/// The outcome of the encyclopedia API search the caller performed:
/// the API client could not be built, the search call failed, or a
/// list of (title, snippet) results came back.
pub enum WikiSearchOutcome {
    ConnectFailed(String),
    SearchFailed(String),
    Results(Vec<(String, String)>),
}

/// What follows the search: a finished response, or a content fetch
/// for the most relevant title.
pub enum WikiSearchStep {
    Respond(AgentResponse),
    FetchContent { title: String },
}

/// The outcome of the encyclopedia content call: a transport failure,
/// or the page extract (absent when the API returned none).
pub enum WikiContentOutcome {
    FetchFailed(String),
    Content(Option<String>),
}

/// What follows the content call: a finished response, or a
/// generation-backend call.
pub enum WikiContentStep {
    Respond(AgentResponse),
    Generate { prompt: String },
}

/// `resp` is a plain-text response that fetched nothing: the given
/// content and confidence, no sources, no resources.  Refusals,
/// upstream failures, suggestions and empty intents all take this
/// shape.
pub open spec fn plain_response_matches(
    resp: AgentResponse,
    content: Seq<char>,
    confidence: u32,
    elapsed_ms: u64,
) -> bool {
    &&& resp.content@ == content
    &&& resp.metadata.agent_name@ == "research"@
    &&& resp.metadata.confidence == confidence
    &&& resp.metadata.processing_time_ms == elapsed_ms
    &&& resp.metadata.sources@.len() == 0
    &&& resp.metadata.content_type@ == "text"@
    &&& resp.resources_used@.len() == 0
}

/// `resp` is a completed research response: the formatted report at
/// the fixed research confidence, with the source URL both advertised
/// and cached for later turns.
pub open spec fn completed_response_matches(
    resp: AgentResponse,
    content: Seq<char>,
    url: Seq<char>,
    elapsed_ms: u64,
) -> bool {
    &&& resp.content@ == content
    &&& resp.metadata.agent_name@ == "research"@
    &&& resp.metadata.confidence == 80
    &&& resp.metadata.processing_time_ms == elapsed_ms
    &&& resp.metadata.sources.deep_view() =~= seq![url]
    &&& resp.metadata.content_type@ == "markdown"@
    &&& resp.resources_used.deep_view() =~= seq![url]
}

/// The formatted report of the encyclopedia-API path.
pub open spec fn wiki_report_spec(
    title: Seq<char>,
    p: (Seq<char>, Seq<Seq<char>>, Seq<Seq<char>>, Seq<char>),
    url: Seq<char>,
) -> Seq<char> {
    "\u{1f4da} **Wikipedia Research: "@ + title + "**\n\n"@ + p.0 + "\n\n**Key Facts:**\n"@
        + bullets(p.1, 0) + "\n\n**Therapeutic Relevance:** "@ + p.3 + "\n\n*Source: "@ + url
        + "*"@
}

fn plain_response(content: String, confidence: u32, elapsed_ms: u64) -> (r: AgentResponse)
    ensures
        plain_response_matches(r, content@, confidence, elapsed_ms),
{
    AgentResponse {
        content,
        metadata: AgentMetadata {
            agent_name: String::from_str("research"),
            confidence,
            processing_time_ms: elapsed_ms,
            sources: Vec::new(),
            content_type: String::from_str("text"),
        },
        resources_used: Vec::new(),
    }
}

fn completed_response(content: String, url: String, elapsed_ms: u64) -> (r: AgentResponse)
    ensures
        completed_response_matches(r, content@, url@, elapsed_ms),
{
    let mut sources: Vec<String> = Vec::new();
    sources.push(url.clone());
    let mut resources_used: Vec<String> = Vec::new();
    resources_used.push(url);
    proof {
        assert(sources.deep_view() =~= seq![resources_used.deep_view()[0]]);
        assert(resources_used.deep_view() =~= seq![resources_used.deep_view()[0]]);
    }
    AgentResponse {
        content,
        metadata: AgentMetadata {
            agent_name: String::from_str("research"),
            confidence: 80,
            processing_time_ms: elapsed_ms,
            sources,
            content_type: String::from_str("markdown"),
        },
        resources_used,
    }
}

impl ResearchAgent {
    /// Continue the encyclopedia path after the caller searched the
    /// API: failures and an empty result list end the turn with the
    /// fixed error response; otherwise the first (most relevant)
    /// result's title is fetched next.
    pub fn research_topic_after_search(
        &self,
        topic: &str,
        outcome: WikiSearchOutcome,
        elapsed_ms: u64,
    ) -> (r: WikiSearchStep)
        ensures
            ({
                match outcome {
                    WikiSearchOutcome::ConnectFailed(e) => r matches WikiSearchStep::Respond(resp)
                        && plain_response_matches(
                        resp,
                        "\u{274c} Failed to connect to Wikipedia API: "@ + e@,
                        0,
                        elapsed_ms,
                    ),
                    WikiSearchOutcome::SearchFailed(e) => r matches WikiSearchStep::Respond(resp)
                        && plain_response_matches(
                        resp,
                        "\u{274c} Wikipedia search failed: "@ + e@,
                        0,
                        elapsed_ms,
                    ),
                    WikiSearchOutcome::Results(v) => {
                        if v@.len() == 0 {
                            r matches WikiSearchStep::Respond(resp) && plain_response_matches(
                                resp,
                                "\u{274c} No Wikipedia articles found for '"@ + topic@ + "'"@,
                                0,
                                elapsed_ms,
                            )
                        } else {
                            r matches WikiSearchStep::FetchContent { title } && title@ == v@[0].0@
                        }
                    },
                }
            }),
    {
        match outcome {
            WikiSearchOutcome::ConnectFailed(e) => {
                let mut content = String::from_str("\u{274c} Failed to connect to Wikipedia API: ");
                content.append(e.as_str());
                WikiSearchStep::Respond(plain_response(content, 0, elapsed_ms))
            },
            WikiSearchOutcome::SearchFailed(e) => {
                let mut content = String::from_str("\u{274c} Wikipedia search failed: ");
                content.append(e.as_str());
                WikiSearchStep::Respond(plain_response(content, 0, elapsed_ms))
            },
            WikiSearchOutcome::Results(v) => {
                if v.len() == 0 {
                    let mut content = String::from_str(
                        "\u{274c} No Wikipedia articles found for '",
                    );
                    content.append(topic);
                    content.append("'");
                    WikiSearchStep::Respond(plain_response(content, 0, elapsed_ms))
                } else {
                    WikiSearchStep::FetchContent { title: v[0].0.clone() }
                }
            },
        }
    }

    /// Continue after the caller fetched the article extract: a
    /// failure or an empty extract ends the turn with the fixed error
    /// response; otherwise the extract goes to the generation backend
    /// with the fixed research-topic query.
    pub fn research_topic_after_content(
        &self,
        topic: &str,
        title: &str,
        outcome: WikiContentOutcome,
        elapsed_ms: u64,
    ) -> (r: WikiContentStep)
        ensures
            ({
                match outcome {
                    WikiContentOutcome::FetchFailed(e) => r matches WikiContentStep::Respond(resp)
                        && plain_response_matches(
                        resp,
                        "\u{274c} Failed to fetch Wikipedia content: "@ + e@,
                        0,
                        elapsed_ms,
                    ),
                    WikiContentOutcome::Content(c) => {
                        if c is Some && c->Some_0@.len() > 0 {
                            r matches WikiContentStep::Generate { prompt } && prompt@
                                == crate::postprocess::prompt_spec(
                                c->Some_0@,
                                "Research topic: "@ + topic@,
                            )
                        } else {
                            r matches WikiContentStep::Respond(resp) && plain_response_matches(
                                resp,
                                "\u{274c} No content found for Wikipedia article '"@ + title@
                                    + "'"@,
                                0,
                                elapsed_ms,
                            )
                        }
                    },
                }
            }),
    {
        match outcome {
            WikiContentOutcome::FetchFailed(e) => {
                let mut content = String::from_str(
                    "\u{274c} Failed to fetch Wikipedia content: ",
                );
                content.append(e.as_str());
                WikiContentStep::Respond(plain_response(content, 0, elapsed_ms))
            },
            WikiContentOutcome::Content(c) => {
                let text = match c {
                    Option::Some(t) => t,
                    Option::None => String::new(),
                };
                if text.as_str().unicode_len() > 0 {
                    let mut query = String::from_str("Research topic: ");
                    query.append(topic);
                    let prompt = crate::postprocess::build_research_prompt(
                        text.as_str(),
                        query.as_str(),
                    );
                    WikiContentStep::Generate { prompt }
                } else {
                    let mut content = String::from_str(
                        "\u{274c} No content found for Wikipedia article '",
                    );
                    content.append(title);
                    content.append("'");
                    WikiContentStep::Respond(plain_response(content, 0, elapsed_ms))
                }
            },
        }
    }

    /// Finish the encyclopedia path after the caller ran the
    /// generation backend: a backend transport error propagates (the
    /// turn aborts); a reply is post-processed and formatted into the
    /// fixed report, with the article URL as both source and cached
    /// resource, at the path's fixed confidence.
    pub fn research_topic_after_generate(
        &self,
        title: &str,
        generation: Result<String, String>,
        elapsed_ms: u64,
    ) -> (r: Result<AgentResponse, String>)
        ensures
            ({
                match generation {
                    Result::Err(e) => r == Result::<AgentResponse, String>::Err(e),
                    Result::Ok(text) => r matches Result::Ok(resp) && completed_response_matches(
                        resp,
                        wiki_report_spec(title@, processed_of(text@), wiki_url_of(title@)),
                        wiki_url_of(title@),
                        elapsed_ms,
                    ),
                }
            }),
    {
        let text = match generation {
            Result::Ok(t) => t,
            Result::Err(e) => {
                return Result::Err(e);
            },
        };
        let processed = parse_generation_response(text.as_str());
        let facts = bullets_exec(&processed.key_facts);
        let mut url = String::from_str("https://en.wikipedia.org/wiki/");
        let underscored = replace_all(title, " ", "_");
        url.append(underscored.as_str());
        let mut content = String::from_str("\u{1f4da} **Wikipedia Research: ");
        content.append(title);
        content.append("**\n\n");
        content.append(processed.summary.as_str());
        content.append("\n\n**Key Facts:**\n");
        content.append(facts.as_str());
        content.append("\n\n**Therapeutic Relevance:** ");
        content.append(processed.therapeutic_relevance.as_str());
        content.append("\n\n*Source: ");
        content.append(url.as_str());
        content.append("*");
        Result::Ok(completed_response(content, url, elapsed_ms))
    }
}

impl Agent for ResearchAgent {
    open spec fn spec_name(&self) -> Seq<char> {
        "research"@
    }

    open spec fn spec_score(&self, req: &AgentRequest) -> u32 {
        confidence_of(intent_view(req.input@))
    }

    fn name(&self) -> (r: String) {
        String::from_str("research")
    }

    fn can_handle(&self, req: &AgentRequest) -> (r: u32) {
        match self.analyze_intent(req.input.as_str()) {
            ResearchIntent::DirectUrl(_) => 100,
            ResearchIntent::ExplicitResearch(_) => 90,
            ResearchIntent::SuggestedResearch(_) => 70,
            ResearchIntent::NoResearch => 0,
        }
    }

    fn capabilities(&self) -> (r: Vec<Capability>)
        ensures
            r@.len() == 3,
            r@[0].name@ == "url_research"@,
            r@[1].name@ == "wikipedia_search"@,
            r@[2].name@ == "intent_detection"@,
    {
        let mut caps: Vec<Capability> = Vec::new();
        let mut input_types: Vec<String> = Vec::new();
        input_types.push(String::from_str("url"));
        input_types.push(String::from_str("text_with_url"));
        let mut output_types: Vec<String> = Vec::new();
        output_types.push(String::from_str("research_result"));
        output_types.push(String::from_str("processed_research"));
        caps.push(
            Capability {
                name: String::from_str("url_research"),
                description: String::from_str(
                    "Fetch and analyze content from whitelisted URLs",
                ),
                input_types,
                output_types,
            },
        );
        let mut input_types: Vec<String> = Vec::new();
        input_types.push(String::from_str("mental_health_query"));
        let mut output_types: Vec<String> = Vec::new();
        output_types.push(String::from_str("research_result"));
        caps.push(
            Capability {
                name: String::from_str("wikipedia_search"),
                description: String::from_str("Search Wikipedia for mental health topics"),
                input_types,
                output_types,
            },
        );
        let mut input_types: Vec<String> = Vec::new();
        input_types.push(String::from_str("text"));
        let mut output_types: Vec<String> = Vec::new();
        output_types.push(String::from_str("research_intent"));
        caps.push(
            Capability {
                name: String::from_str("intent_detection"),
                description: String::from_str("Detect research intent in user messages"),
                input_types,
                output_types,
            },
        );
        caps
    }
}

} // verus!
