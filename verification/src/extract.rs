//! Readable-content extraction from fetched markup.
//!
//! A fetched page is parsed and a domain-specific ordered list of
//! content-region selectors is tried; the first region whose
//! whitespace-normalized text is long enough wins, with the whole
//! document body as the fall-back.  The winning region is rendered to
//! plain text for the generation backend, and a title is taken from
//! the `<title>` tag or the first `<h1>`.

use vstd::prelude::*;
use crate::text::contains_seq;
use crate::text::contains_sub;
use crate::text::normalize_lines;
use crate::text::normalize_lines_spec;
use crate::text::trim_exec;
use crate::text::trim_spec;
use crate::urlcheck::url_domain;
use crate::urlcheck::UrlValidator;

verus! {

/// The text of the first element of the document `html` matching the
/// CSS selector `sel`, its text nodes joined with `sep`: `None` when
/// the selector is invalid or nothing matches; a function of the three
/// texts alone.
pub uninterp spec fn selected_text(html: Seq<char>, sel: Seq<char>, sep: Seq<char>) -> Option<
    Seq<char>,
>;

/// Relies on scraper::Html::parse_document, scraper::Selector::parse
/// and scraper::ElementRef::text: the joined text of the first element
/// matching `sel`, a function of the inputs alone.
#[verifier::external_body]
fn select_first_text(html: &str, sel: &str, sep: &str) -> (r: Option<String>)
    ensures
        match r {
            Option::Some(t) => selected_text(html@, sel@, sep@) == Option::Some(t@),
            Option::None => selected_text(html@, sel@, sep@) is None,
        },
{
    let doc = scraper::Html::parse_document(html);
    let selector = scraper::Selector::parse(sel).ok()?;
    let element = doc.select(&selector).next()?;
    Some(element.text().collect::<Vec<_>>().join(sep))
}

/// The plain-text rendering of the markup `html` wrapped to `width`
/// columns, or `None` when the renderer fails; a function of the
/// inputs alone.
pub uninterp spec fn rendered_text(html: Seq<char>, width: int) -> Option<Seq<char>>;

/// Relies on html2text::from_read: the rendered text is a function of
/// the markup and the width alone.
#[verifier::external_body]
fn render_plain_text(html: &str, width: usize) -> (r: Option<String>)
    ensures
        match r {
            Option::Some(t) => rendered_text(html@, width as int) == Option::Some(t@),
            Option::None => rendered_text(html@, width as int) is None,
        },
{
    html2text::from_read(html.as_bytes(), width).ok()
}

/// One step of the selector cascade: the normalized text of the first
/// element matching `sel` when it exceeds 100 characters, else `rest`.
pub open spec fn pick_region(html: Seq<char>, sel: Seq<char>, rest: Option<Seq<char>>) -> Option<
    Seq<char>,
> {
    match selected_text(html, sel, " "@) {
        Option::Some(t) => if normalize_lines_spec(t).len() > 100 {
            Option::Some(normalize_lines_spec(t))
        } else {
            rest
        },
        Option::None => rest,
    }
}

/// The content region for an encyclopedia page: its main-content
/// containers, in order.
pub open spec fn wiki_region(html: Seq<char>) -> Option<Seq<char>> {
    pick_region(
        html,
        "#mw-content-text"@,
        pick_region(html, "#bodyContent"@, pick_region(html, ".mw-parser-output"@, Option::None)),
    )
}

/// The content region for a psychology-information page.
pub open spec fn psych_region(html: Seq<char>) -> Option<Seq<char>> {
    pick_region(
        html,
        ".entry-content"@,
        pick_region(
            html,
            ".article-content"@,
            pick_region(
                html,
                ".post-content"@,
                pick_region(html, "main article"@, pick_region(html, "article"@, Option::None)),
            ),
        ),
    )
}

/// The content region for any other page: generic containers.
pub open spec fn generic_region(html: Seq<char>) -> Option<Seq<char>> {
    pick_region(
        html,
        "main"@,
        pick_region(
            html,
            "article"@,
            pick_region(
                html,
                ".content"@,
                pick_region(
                    html,
                    "#content"@,
                    pick_region(
                        html,
                        ".post-content"@,
                        pick_region(html, ".entry-content"@, Option::None),
                    ),
                ),
            ),
        ),
    )
}

/// The main readable content of `html` fetched from `url`: the first
/// domain-specific region whose normalized text exceeds 100
/// characters, else the whole body text; `None` when not even a body
/// can be found.
pub open spec fn main_content_spec(html: Seq<char>, url: Seq<char>) -> Option<Seq<char>> {
    let region = if contains_seq(url, "wikipedia.org"@) {
        wiki_region(html)
    } else if contains_seq(url, "psychologytoday.com"@) {
        psych_region(html)
    } else {
        generic_region(html)
    };
    match region {
        Option::Some(c) => Option::Some(c),
        Option::None => selected_text(html, "body"@, " "@),
    }
}

/// Try one selector: the normalized text of its first match, when
/// longer than 100 characters.
fn try_region(html: &str, sel: &str) -> (r: Option<String>)
    ensures
        match r {
            Option::Some(c) => pick_region(html@, sel@, Option::None) == Option::Some(c@),
            Option::None => pick_region(html@, sel@, Option::None) is None,
        },
{
    proof {
        reveal_strlit(" ");
    }
    match select_first_text(html, sel, " ") {
        Option::Some(t) => {
            let norm = normalize_lines(t.as_str());
            if norm.as_str().unicode_len() > 100 {
                Option::Some(norm)
            } else {
                Option::None
            }
        },
        Option::None => Option::None,
    }
}

/// Extract the main readable content, per `main_content_spec`.
pub fn extract_main_content(html: &str, url: &str) -> (r: Option<String>)
    ensures
        match r {
            Option::Some(c) => main_content_spec(html@, url@) == Option::Some(c@),
            Option::None => main_content_spec(html@, url@) is None,
        },
{
    let region: Option<String> = if contains_sub(url, "wikipedia.org") {
        match try_region(html, "#mw-content-text") {
            Option::Some(c) => Option::Some(c),
            Option::None => match try_region(html, "#bodyContent") {
                Option::Some(c) => Option::Some(c),
                Option::None => try_region(html, ".mw-parser-output"),
            },
        }
    } else if contains_sub(url, "psychologytoday.com") {
        match try_region(html, ".entry-content") {
            Option::Some(c) => Option::Some(c),
            Option::None => match try_region(html, ".article-content") {
                Option::Some(c) => Option::Some(c),
                Option::None => match try_region(html, ".post-content") {
                    Option::Some(c) => Option::Some(c),
                    Option::None => match try_region(html, "main article") {
                        Option::Some(c) => Option::Some(c),
                        Option::None => try_region(html, "article"),
                    },
                },
            },
        }
    } else {
        match try_region(html, "main") {
            Option::Some(c) => Option::Some(c),
            Option::None => match try_region(html, "article") {
                Option::Some(c) => Option::Some(c),
                Option::None => match try_region(html, ".content") {
                    Option::Some(c) => Option::Some(c),
                    Option::None => match try_region(html, "#content") {
                        Option::Some(c) => Option::Some(c),
                        Option::None => match try_region(html, ".post-content") {
                            Option::Some(c) => Option::Some(c),
                            Option::None => try_region(html, ".entry-content"),
                        },
                    },
                },
            },
        }
    };
    match region {
        Option::Some(c) => Option::Some(c),
        Option::None => {
            proof {
                reveal_strlit(" ");
            }
            select_first_text(html, "body", " ")
        },
    }
}

/// The page title: the trimmed `<title>` text when non-empty, else the
/// trimmed first `<h1>` text when non-empty, else nothing.
pub open spec fn title_spec(html: Seq<char>) -> Option<Seq<char>> {
    let t = selected_text(html, "title"@, Seq::empty());
    if t is Some && trim_spec(t->Some_0).len() > 0 {
        Option::Some(trim_spec(t->Some_0))
    } else {
        let h = selected_text(html, "h1"@, Seq::empty());
        if h is Some && trim_spec(h->Some_0).len() > 0 {
            Option::Some(trim_spec(h->Some_0))
        } else {
            Option::None
        }
    }
}

/// Extract the page title, per `title_spec`.
pub fn extract_title(html: &str) -> (r: Option<String>)
    ensures
        match r {
            Option::Some(t) => title_spec(html@) == Option::Some(t@),
            Option::None => title_spec(html@) is None,
        },
{
    proof {
        reveal_strlit("");
        assert(""@ =~= Seq::<char>::empty());
    }
    match select_first_text(html, "title", "") {
        Option::Some(t) => {
            let trimmed = trim_exec(t.as_str());
            if trimmed.unicode_len() > 0 {
                return Option::Some(trimmed.to_owned());
            }
        },
        Option::None => {},
    }
    match select_first_text(html, "h1", "") {
        Option::Some(t) => {
            let trimmed = trim_exec(t.as_str());
            if trimmed.unicode_len() > 0 {
                return Option::Some(trimmed.to_owned());
            }
        },
        Option::None => {},
    }
    Option::None
}

/// The result of one fetch-and-extract, handed on to post-processing.
/// `extracted_at` is the caller's clock, as seconds since the Unix
/// epoch.
pub struct ResearchResult {
    pub url: String,
    pub title: String,
    pub content: String,
    pub source_domain: String,
    pub extracted_at: i64,
}

/// The fixed wrap width for rendered content.
pub const RENDER_WIDTH: usize = 120;

/// The extraction pipeline succeeds on this page: a content region
/// exists and the renderer accepts it.
pub open spec fn extraction_ok(html: Seq<char>, url: Seq<char>) -> bool {
    main_content_spec(html, url) is Some && rendered_text(
        main_content_spec(html, url)->Some_0,
        RENDER_WIDTH as int,
    ) is Some
}

/// `rr` is exactly the research result of extracting this fetched
/// page at time `now`.
pub open spec fn research_result_matches(
    rr: ResearchResult,
    url: Seq<char>,
    html: Seq<char>,
    now: i64,
) -> bool {
    &&& rr.url@ == url
    &&& rr.content@ == rendered_text(main_content_spec(html, url)->Some_0, RENDER_WIDTH as int)->Some_0
    &&& rr.title@ == (match title_spec(html) {
        Option::Some(t) => t,
        Option::None => "Untitled"@,
    })
    &&& rr.source_domain@ == (match url_domain(url) {
        Option::Some(d) => d,
        Option::None => "unknown"@,
    })
    &&& rr.extracted_at == now
}

/// Build a `ResearchResult` from a fetched page: the main content is
/// extracted and rendered to plain text at the fixed width, the title
/// falls back to "Untitled" and the domain to "unknown".  `None` when
/// no content region (not even a body) can be extracted or the
/// renderer fails.
pub fn build_research_result(url: &str, html: &str, now_ts: i64) -> (r: Option<ResearchResult>)
    ensures
        match r {
            Option::Some(rr) => extraction_ok(html@, url@) && research_result_matches(
                rr,
                url@,
                html@,
                now_ts,
            ),
            Option::None => !extraction_ok(html@, url@),
        },
{
    let content = match extract_main_content(html, url) {
        Option::Some(c) => c,
        Option::None => {
            return Option::None;
        },
    };
    let markdown = match render_plain_text(content.as_str(), RENDER_WIDTH) {
        Option::Some(m) => m,
        Option::None => {
            return Option::None;
        },
    };
    let title = match extract_title(html) {
        Option::Some(t) => t,
        Option::None => String::from_str("Untitled"),
    };
    let validator = UrlValidator::new();
    let source_domain = match validator.get_domain(url) {
        Option::Some(d) => d,
        Option::None => String::from_str("unknown"),
    };
    Option::Some(
        ResearchResult {
            url: url.to_owned(),
            title,
            content: markdown,
            source_domain,
            extracted_at: now_ts,
        },
    )
}

} // verus!
