use chiron::extract::ResearchResult;
use chiron::extract::build_research_result;
use chiron::extract::extract_main_content;
use chiron::extract::extract_title;
use chiron::postprocess::build_research_prompt;
use chiron::postprocess::parse_generation_response;
use chiron::research::AfterFetch;
use chiron::research::ExecPlan;
use chiron::research::FetchOutcome;
use chiron::research::ResearchAgent;
use chiron::research::WikiContentOutcome;
use chiron::research::WikiContentStep;
use chiron::research::WikiSearchOutcome;
use chiron::research::WikiSearchStep;
use chiron::urlcheck::UrlValidator;

#[test]
fn test_url_whitelist() {
    let validator = UrlValidator::new();

    assert!(validator.is_whitelisted("https://en.wikipedia.org/wiki/Anxiety"));
    assert!(validator.is_whitelisted("https://www.psychologytoday.com/article"));
    assert!(!validator.is_whitelisted("https://malicious-site.com/page"));
    assert!(!validator.is_whitelisted("https://google.com"));
}

#[test]
fn test_whitelist_is_exact_host_match() {
    let validator = UrlValidator::new();
    // Substring tricks must not pass the exact-host check.
    assert!(!validator.is_whitelisted("https://en.wikipedia.org.evil.com/wiki/Anxiety"));
    assert!(!validator.is_whitelisted("https://evil.com/en.wikipedia.org"));
    assert!(!validator.is_whitelisted("not a url at all"));
}

#[test]
fn test_get_domain() {
    let validator = UrlValidator::new();
    assert_eq!(
        validator.get_domain("https://en.wikipedia.org/wiki/X"),
        Some("en.wikipedia.org".to_string())
    );
    assert_eq!(validator.get_domain("::nonsense::"), None);
}

#[test]
fn test_execute_start_direct_url() {
    let agent = ResearchAgent::new();
    match agent.execute_start("Can you read https://en.wikipedia.org/wiki/Depression", 0) {
        ExecPlan::Fetch { url, query, wiki_search } => {
            assert_eq!(url, "https://en.wikipedia.org/wiki/Depression");
            assert_eq!(query, "Can you read https://en.wikipedia.org/wiki/Depression");
            assert!(!wiki_search);
        }
        _ => panic!("Expected a fetch plan"),
    }
}

#[test]
fn test_execute_start_rejects_unlisted_url() {
    let agent = ResearchAgent::new();
    match agent.execute_start("read https://malicious-site.com/page please", 3) {
        ExecPlan::Respond(resp) => {
            assert_eq!(
                resp.content,
                "\u{274c} URL not whitelisted. Only Wikipedia and Psychology Today are supported."
            );
            assert_eq!(resp.metadata.confidence, 0);
            assert_eq!(resp.metadata.processing_time_ms, 3);
            assert!(resp.resources_used.is_empty());
            assert!(resp.metadata.sources.is_empty());
        }
        _ => panic!("Expected the refusal response"),
    }
}

#[test]
fn test_execute_start_explicit_research() {
    // End to end: "research depression" classifies as explicit research,
    // scores 0.9, and turns into an encyclopedia search for "depression".
    let agent = ResearchAgent::new();
    match agent.execute_start("research depression", 0) {
        ExecPlan::Fetch { url, query, wiki_search } => {
            assert_eq!(url, "https://en.wikipedia.org/wiki/depression");
            assert_eq!(query, "depression");
            assert!(wiki_search);
        }
        _ => panic!("Expected a fetch plan"),
    }
}

#[test]
fn test_execute_start_suggestion_does_not_fetch() {
    let agent = ResearchAgent::new();
    match agent.execute_start("what are panic attacks?", 1) {
        ExecPlan::Respond(resp) => {
            assert!(resp.content.contains("panic attacks"));
            assert!(resp.content.contains("Would you like me to research this topic"));
            // Advisory confidence, unchanged; nothing fetched or cached.
            assert_eq!(resp.metadata.confidence, 70);
            assert!(resp.resources_used.is_empty());
        }
        _ => panic!("A suggestion must not fetch anything"),
    }
}

#[test]
fn test_execute_after_fetch_errors() {
    let agent = ResearchAgent::new();
    match agent.execute_after_fetch(
        "https://en.wikipedia.org/wiki/X",
        "X",
        false,
        FetchOutcome::TransportError("connection refused".to_string()),
        7,
        9,
    ) {
        AfterFetch::Respond(resp) => {
            assert_eq!(resp.content, "\u{274c} Research failed: connection refused");
            assert_eq!(resp.metadata.confidence, 0);
            assert_eq!(resp.metadata.processing_time_ms, 9);
        }
        _ => panic!("Expected a final error response"),
    }
    match agent.execute_after_fetch(
        "https://en.wikipedia.org/wiki/X",
        "X",
        false,
        FetchOutcome::Response {
            ok: false,
            status: "404 Not Found".to_string(),
            body: String::new(),
        },
        7,
        9,
    ) {
        AfterFetch::Respond(resp) => {
            assert_eq!(
                resp.content,
                "\u{274c} Research failed: HTTP error 404 Not Found: https://en.wikipedia.org/wiki/X"
            );
            assert_eq!(resp.metadata.confidence, 0);
        }
        _ => panic!("Expected a final error response"),
    }
}

fn sample_page() -> String {
    let mut body = String::from("<html><head><title> Anxiety </title></head><body><main>");
    for _ in 0..20 {
        body.push_str("<p>Anxiety is a feeling of worry that can affect daily life.</p>");
    }
    body.push_str("</main></body></html>");
    body
}

#[test]
fn test_execute_after_fetch_extracts_and_prompts() {
    let agent = ResearchAgent::new();
    match agent.execute_after_fetch(
        "https://www.psychologytoday.com/article",
        "tell me",
        false,
        FetchOutcome::Response { ok: true, status: "200 OK".to_string(), body: sample_page() },
        42,
        5,
    ) {
        AfterFetch::Generate { prompt, research } => {
            assert_eq!(research.url, "https://www.psychologytoday.com/article");
            assert_eq!(research.title, "Anxiety");
            assert_eq!(research.source_domain, "www.psychologytoday.com");
            assert_eq!(research.extracted_at, 42);
            // The rendered content is plain text, not markup.
            assert!(research.content.contains("Anxiety is a feeling of worry"));
            assert!(!research.content.contains("<p>"));
            assert!(prompt.contains("tell me"));
            assert!(prompt.contains("Anxiety is a feeling of worry"));
        }
        _ => panic!("Expected a generation step"),
    }
}

#[test]
fn test_extract_main_content_falls_back_to_body() {
    // The only region is too short, so the whole body text is used.
    let html = "<html><body><main>short</main><p>outside</p></body></html>";
    let content = extract_main_content(html, "https://example.org/").unwrap();
    assert!(content.contains("short"));
    assert!(content.contains("outside"));
}

#[test]
fn test_extract_title_falls_back_to_h1() {
    assert_eq!(
        extract_title("<html><head><title> The Title </title></head></html>"),
        Some("The Title".to_string())
    );
    assert_eq!(
        extract_title("<html><body><h1> Heading </h1></body></html>"),
        Some("Heading".to_string())
    );
    assert_eq!(extract_title("<html><body><p>plain</p></body></html>"), None);
}

#[test]
fn test_build_research_result_defaults() {
    let mut page = String::from("<html><body><main>");
    for _ in 0..20 {
        page.push_str("Plenty of readable text keeps this region long enough to qualify. ");
    }
    page.push_str("</main></body></html>");
    let rr = build_research_result("https://example.org/x", &page, 5).unwrap();
    assert_eq!(rr.title, "Untitled");
    assert_eq!(rr.source_domain, "example.org");
    assert_eq!(rr.extracted_at, 5);
}

#[test]
fn test_execute_after_generate_formats_report() {
    let agent = ResearchAgent::new();
    let research = ResearchResult {
        url: "https://en.wikipedia.org/wiki/Anxiety".to_string(),
        title: "Anxiety".to_string(),
        content: "text".to_string(),
        source_domain: "en.wikipedia.org".to_string(),
        extracted_at: 0,
    };
    let reply = "{\"summary\": \"A summary.\", \"key_facts\": [\"Fact one\", \"Fact two\"], \
                 \"relevant_sections\": [], \"therapeutic_relevance\": \"Helps.\"}";
    let resp = agent
        .execute_after_generate(false, "query", research, Ok(reply.to_string()), 11)
        .ok()
        .unwrap();
    assert_eq!(
        resp.content,
        "\u{1f4da} **Research from en.wikipedia.org**\n\n**Anxiety**\n\nA summary.\n\n\
         **Key Facts:**\n\u{2022} Fact one\n\u{2022} Fact two\n\n\
         **Therapeutic Relevance:** Helps.\n\n*Source: https://en.wikipedia.org/wiki/Anxiety*"
    );
    // The completed response carries the fixed research confidence and
    // the source URL, both advertised and cached for later turns.
    assert_eq!(resp.metadata.confidence, 80);
    assert_eq!(
        resp.metadata.sources,
        vec!["https://en.wikipedia.org/wiki/Anxiety".to_string()]
    );
    assert_eq!(
        resp.resources_used,
        vec!["https://en.wikipedia.org/wiki/Anxiety".to_string()]
    );
    assert_eq!(resp.metadata.processing_time_ms, 11);
    assert_eq!(resp.metadata.content_type, "markdown");
}

#[test]
fn test_execute_after_generate_propagates_backend_error() {
    let agent = ResearchAgent::new();
    let research = ResearchResult {
        url: String::new(),
        title: String::new(),
        content: String::new(),
        source_domain: String::new(),
        extracted_at: 0,
    };
    let r = agent.execute_after_generate(false, "q", research, Err("backend down".to_string()), 0);
    match r {
        Err(e) => assert_eq!(e, "backend down"),
        Ok(_) => panic!("A backend transport error must propagate"),
    }
}

#[test]
fn test_wiki_search_stages() {
    let agent = ResearchAgent::new();
    match agent.research_topic_after_search(
        "depression",
        WikiSearchOutcome::Results(vec![]),
        3,
    ) {
        WikiSearchStep::Respond(resp) => {
            assert_eq!(resp.content, "\u{274c} No Wikipedia articles found for 'depression'");
            assert_eq!(resp.metadata.confidence, 0);
            assert_eq!(resp.metadata.processing_time_ms, 3);
            assert_eq!(resp.metadata.content_type, "text");
        }
        _ => panic!("Expected the empty-results response"),
    }
    match agent.research_topic_after_search(
        "depression",
        WikiSearchOutcome::Results(vec![
            ("Major depressive disorder".to_string(), "snippet".to_string()),
            ("Other".to_string(), "snippet".to_string()),
        ]),
        3,
    ) {
        WikiSearchStep::FetchContent { title } => {
            assert_eq!(title, "Major depressive disorder");
        }
        _ => panic!("Expected a content fetch for the first result"),
    }
}

#[test]
fn test_wiki_content_stages() {
    let agent = ResearchAgent::new();
    match agent.research_topic_after_content(
        "depression",
        "Major depressive disorder",
        WikiContentOutcome::Content(None),
        4,
    ) {
        WikiContentStep::Respond(resp) => {
            assert_eq!(
                resp.content,
                "\u{274c} No content found for Wikipedia article 'Major depressive disorder'"
            );
        }
        _ => panic!("Expected the no-content response"),
    }
    match agent.research_topic_after_content(
        "depression",
        "Major depressive disorder",
        WikiContentOutcome::Content(Some("An article extract.".to_string())),
        4,
    ) {
        WikiContentStep::Generate { prompt } => {
            assert!(prompt.contains("Research topic: depression"));
            assert!(prompt.contains("An article extract."));
        }
        _ => panic!("Expected a generation step"),
    }
}

#[test]
fn test_wiki_report_shape() {
    let agent = ResearchAgent::new();
    let reply = "{\"summary\": \"S.\", \"key_facts\": [\"F\"], \"relevant_sections\": [], \
                 \"therapeutic_relevance\": \"R.\"}";
    let resp = agent
        .research_topic_after_generate("Major depression", Ok(reply.to_string()), 9)
        .unwrap();
    assert_eq!(
        resp.content,
        "\u{1f4da} **Wikipedia Research: Major depression**\n\nS.\n\n**Key Facts:**\n\u{2022} F\n\n\
         **Therapeutic Relevance:** R.\n\n*Source: https://en.wikipedia.org/wiki/Major_depression*"
    );
    assert_eq!(resp.metadata.confidence, 80);
    assert_eq!(
        resp.metadata.sources,
        vec!["https://en.wikipedia.org/wiki/Major_depression".to_string()]
    );
    assert_eq!(
        resp.resources_used,
        vec!["https://en.wikipedia.org/wiki/Major_depression".to_string()]
    );
}

#[test]
fn test_build_research_prompt_embeds_both_inputs() {
    let p = build_research_prompt("the content", "the query");
    assert!(p.contains("about: the query"));
    assert!(p.contains("Content:\nthe content"));
    assert!(p.contains("Respond with ONLY a valid JSON object"));
}

#[test]
fn test_parse_generation_response_happy_path() {
    let reply = "```json\n{\"summary\": \"Short.\", \"key_facts\": [\"A\", \"B\"], \
                 \"relevant_sections\": [\"intro\"], \"therapeutic_relevance\": \"Useful.\"}\n```";
    let p = parse_generation_response(reply);
    assert_eq!(p.summary, "Short.");
    assert_eq!(p.key_facts, vec!["A".to_string(), "B".to_string()]);
    assert_eq!(p.relevant_sections, vec!["intro".to_string()]);
    assert_eq!(p.therapeutic_relevance, "Useful.");
}

#[test]
fn test_parse_generation_response_fallback() {
    // An invalid JSON reply degrades but never fails.
    let p = parse_generation_response("this is not json at all");
    assert!(!p.key_facts.is_empty());
    assert_eq!(p.therapeutic_relevance, "Content available but needs manual processing");
    assert_eq!(p.summary, "this is not json at all...");
    assert_eq!(p.key_facts[0], "JSON parsing failed - showing raw content");
    assert!(p.key_facts[1].starts_with("Error: "));
    // The recorded error is the parser's own message, not the input.
    assert!(p.key_facts[1].contains("line 1"));
    assert!(p.relevant_sections.is_empty());
}

#[test]
fn test_parse_generation_response_missing_field_falls_back() {
    let p = parse_generation_response("{\"summary\": \"only this\"}");
    assert!(!p.key_facts.is_empty());
    assert_eq!(p.therapeutic_relevance, "Content available but needs manual processing");
}
