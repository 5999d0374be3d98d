use nimbus::dispatch::{
    path_segment, plan_fetch, route, scrape_request, single_block, Route, Settings, UrlParts,
};
use nimbus::document::{document_path, render_document};
use nimbus::error::{FetchError, InputFault};
use nimbus::request::Param;

fn settings(scrapper: Option<&str>) -> Settings {
    Settings {
        google_search_engine_id: "engine".to_string(),
        google_search_api_key: "gkey".to_string(),
        stack_overflow_api_prefix: "https://api.stackexchange.com/2.3".to_string(),
        stack_overflow_api_key: None,
        mdn_base_path: "/srv/mdn/files".to_string(),
        scrapper_host: scrapper.map(|s| s.to_string()),
    }
}

#[test]
fn question_id_is_the_second_path_segment() {
    assert_eq!(path_segment("/questions/12345/some-title", 1), Some("12345".to_string()));
    assert_eq!(path_segment("/questions/12345/some-title", 0), Some("questions".to_string()));
    assert_eq!(path_segment("/questions/12345/some-title", 2), Some("some-title".to_string()));
    assert_eq!(path_segment("/questions/12345/some-title", 3), None);
}

#[test]
fn segments_may_be_empty() {
    assert_eq!(path_segment("/", 0), Some(String::new()));
    assert_eq!(path_segment("/", 1), None);
    assert_eq!(path_segment("/a/", 1), Some(String::new()));
    assert_eq!(path_segment("/a//b", 1), Some(String::new()));
    assert_eq!(path_segment("/a//b", 2), Some("b".to_string()));
    assert_eq!(path_segment("", 0), None);
    assert_eq!(path_segment("text/plain,Stuff", 0), None);
    assert_eq!(path_segment("/caf\u{e9}/\u{4e16}\u{754c}", 1), Some("\u{4e16}\u{754c}".to_string()));
}

#[test]
fn question_url_is_routed_to_the_question_source() {
    let r = plan_fetch("https://stackoverflow.com/questions/12345/some-title", &settings(None)).unwrap();
    match r {
        Route::QuestionAnswers { question_id, question, answers } => {
            assert_eq!(question_id, "12345");
            assert_eq!(question.url, "https://api.stackexchange.com/2.3/questions/12345");
            assert_eq!(answers.url, "https://api.stackexchange.com/2.3/questions/12345/answers");
            assert_eq!(question.query, answers.query);
        }
        other => panic!("wrong route: {:?}", other),
    }
}

#[test]
fn question_url_without_id_is_refused() {
    assert_eq!(
        plan_fetch("https://stackoverflow.com/questions", &settings(Some("http://localhost:3000"))),
        Err(FetchError::InvalidInput(InputFault::MissingQuestionId))
    );
    assert_eq!(
        plan_fetch("https://stackoverflow.com", &settings(None)),
        Err(FetchError::InvalidInput(InputFault::MissingQuestionId))
    );
}

#[test]
fn host_without_path_has_no_segment() {
    assert_eq!(
        plan_fetch("foo://stackoverflow.com", &settings(None)),
        Err(FetchError::InvalidInput(InputFault::MissingQuestionId))
    );
}

#[test]
fn documentation_url_is_routed_to_its_file() {
    assert_eq!(
        plan_fetch(
            "https://developer.mozilla.org/en-US/docs/Web/API/Element/mouseover_event",
            &settings(None)
        ),
        Ok(Route::Document {
            path: "/srv/mdn/files/en-us/web/api/element/mouseover_event/index.md".to_string()
        })
    );
}

#[test]
fn document_path_is_lowered_and_loses_its_docs_segment() {
    assert_eq!(
        document_path("/base", "/en-us/docs/web/api/element/mouseover_event"),
        "/base/en-us/web/api/element/mouseover_event/index.md"
    );
    assert_eq!(document_path("", "/en-US/docs/Web/docs/CSS"), "/en-us/web/css/index.md");
    assert_eq!(document_path("b", "/DOCS/"), "b//index.md");
    assert_eq!(document_path("b", "/x/docs/docs/y"), "b/x/docs/y/index.md");
    assert_eq!(document_path("b", "/\u{c9}t\u{e9}/Docs/Z"), "b/\u{c9}t\u{e9}/z/index.md");
}

#[test]
fn discussion_url_is_routed_by_its_fourth_segment() {
    assert_eq!(
        plan_fetch(
            "https://www.reddit.com/r/rust/comments/ueyt1d/confused_about_how_to_use_tokio_to_process_a/",
            &settings(None)
        ),
        Ok(Route::Discussion { submission_id: "ueyt1d".to_string(), depth: 3, limit: 20 })
    );
    assert_eq!(
        plan_fetch("https://www.reddit.com/r/rust/comments", &settings(None)),
        Err(FetchError::InvalidInput(InputFault::MissingSubmissionId))
    );
}

#[test]
fn url_without_host_is_invalid_input() {
    let e = plan_fetch("data:text/plain,Stuff", &settings(Some("http://localhost:3000"))).unwrap_err();
    assert_eq!(e, FetchError::InvalidInput(InputFault::MissingHost));
    assert!(e.is_invalid_input());
    assert_eq!(e.message(), "invalid URL: no host component");
}

#[test]
fn text_that_is_no_url_is_invalid_input() {
    let e = plan_fetch("not a url", &settings(None)).unwrap_err();
    assert_eq!(e, FetchError::InvalidInput(InputFault::MalformedUrl));
    assert_eq!(e.message(), "failed to parse url as URL");
}

#[test]
fn unknown_host_without_fallback_is_unsupported() {
    let e = plan_fetch("https://example.com/page", &settings(None)).unwrap_err();
    assert_eq!(e, FetchError::UnsupportedHost("example.com".to_string()));
    assert!(!e.is_invalid_input());
    assert_eq!(e.message(), "invalid host: example.com. Must be from provided search results");
}

#[test]
fn unknown_host_with_fallback_goes_to_the_scraper() {
    let r = plan_fetch("https://example.com/page?x=1", &settings(Some("http://localhost:3000")));
    assert_eq!(
        r,
        Ok(Route::Fallback {
            request: scrape_request("http://localhost:3000", "https://example.com/page?x=1")
        })
    );
    let request = scrape_request("http://localhost:3000", "https://example.com/");
    assert_eq!(request.url, "http://localhost:3000/api/article");
    assert_eq!(
        request.query,
        vec![
            Param { name: "url".to_string(), value: "https://example.com/".to_string() },
            Param { name: "timeout".to_string(), value: "10000".to_string() },
        ]
    );
}

#[test]
fn hosts_are_compared_exactly() {
    for url in [
        "https://stackoverflow.com.evil.org/questions/1/x",
        "https://notstackoverflow.com/questions/1/x",
        "https://reddit.com/r/rust/comments/abc/x",
        "https://mozilla.org/en-US/docs/Web",
    ] {
        match plan_fetch(url, &settings(None)) {
            Err(FetchError::UnsupportedHost(_)) => {}
            other => panic!("{} was routed: {:?}", url, other),
        }
    }
    let parts = UrlParts {
        host: Some("StackOverflow.com".to_string()),
        path: "/questions/1/x".to_string(),
        text: "https://StackOverflow.com/questions/1/x".to_string(),
    };
    assert_eq!(
        route(&parts, &settings(None)),
        Err(FetchError::UnsupportedHost("StackOverflow.com".to_string()))
    );
}

#[test]
fn scraped_content_is_returned_unmodified() {
    let text = "  Raw {{text}} \n with <b>anything</b> ".to_string();
    assert_eq!(single_block(text.clone()), vec![text]);
}

#[test]
fn cross_references_become_inline_code() {
    assert_eq!(
        render_document("See {{domxref(\"Element\")}} for more."),
        Some("See `Element` for more.".to_string())
    );
}

#[test]
fn other_macros_are_taken_out() {
    assert_eq!(
        render_document("{{APIRef(\"DOM\")}}The {{domxref(\"Element.mouseover_event\")}} event{{Glossary}}."),
        Some("The `Element.mouseover_event` event.".to_string())
    );
    assert_eq!(render_document("plain text {} {{}}"), Some("plain text {} {{}}".to_string()));
    assert_eq!(render_document(""), Some(String::new()));
}
