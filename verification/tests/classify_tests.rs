use nimbus::classify::{
    classify, read_doc, read_forum, read_qa, AskedQuestion, DocMeta, DocPage, ForumPage,
    ForumPosting, GivenAnswer, PageMap, QaPage, ShapeTag,
};
use nimbus::meta::{find_field, read_list, text_of, write_list, MetaValue, Part};
use nimbus::dispatch::Settings;
use nimbus::reclassify::into_block;
use nimbus::request::Param;
use nimbus::search::{normalize_result, result_to_block, search_request, SearchQuery};

fn text(s: &str) -> MetaValue {
    MetaValue::Text(s.to_string())
}

fn record(fields: Vec<(&str, MetaValue)>) -> MetaValue {
    MetaValue::Record(fields.into_iter().map(|(n, v)| (n.to_string(), v)).collect())
}

fn metatags() -> MetaValue {
    MetaValue::List(vec![record(vec![
        ("viewport", text("width=device-width")),
        ("og:title", text("Element: mouseover event")),
        ("og:description", text("The mouseover event is fired...")),
    ])])
}

fn posting(section: Option<MetaValue>) -> MetaValue {
    let mut fields = vec![("text", text("I am confused")), ("datepublished", text("2022-04-29"))];
    if let Some(s) = section {
        fields.push(("articlesection", s));
    }
    record(fields)
}

fn qa_block() -> MetaValue {
    record(vec![
        (
            "question",
            MetaValue::List(vec![record(vec![
                ("upvotecount", text("12")),
                ("name", text("How do I center a div?")),
                ("text", text("I tried margin auto")),
                ("image", text("https://example.com/a.png")),
            ])]),
        ),
        (
            "answer",
            MetaValue::List(vec![
                record(vec![("upvotecount", text("10")), ("text", text("Use flexbox"))]),
                record(vec![("text", text("Use a table")), ("upvotecount", text("2"))]),
            ]),
        ),
        ("metatags", metatags()),
    ])
}

#[test]
fn forum_shape_needs_postings_and_metatags() {
    let block = record(vec![
        ("metatags", metatags()),
        ("discussionforumposting", MetaValue::List(vec![posting(Some(text("help")))])),
    ]);
    let page = classify(block);
    assert_eq!(page.shape(), ShapeTag::ForumShape);
    assert_eq!(
        page,
        PageMap::Forum(ForumPage {
            metatags: vec![DocMeta {
                description: "The mouseover event is fired...".to_string(),
                title: "Element: mouseover event".to_string(),
            }],
            forum_post: vec![ForumPosting {
                article_section: Some("help".to_string()),
                text: "I am confused".to_string(),
                date_published: "2022-04-29".to_string(),
            }],
            comment: None,
        })
    );
}

#[test]
fn forum_comments_are_optional() {
    let with_null = record(vec![
        ("metatags", metatags()),
        ("discussionforumposting", MetaValue::List(vec![posting(None)])),
        ("comment", MetaValue::Null),
    ]);
    match classify(with_null) {
        PageMap::Forum(p) => {
            assert_eq!(p.comment, None);
            assert_eq!(p.forum_post[0].article_section, None);
        }
        other => panic!("not a forum page: {:?}", other),
    }
    let with_list = record(vec![
        ("comment", MetaValue::List(vec![posting(Some(MetaValue::Null)), posting(None)])),
        ("metatags", metatags()),
        ("discussionforumposting", MetaValue::List(Vec::new())),
    ]);
    match classify(with_list) {
        PageMap::Forum(p) => {
            assert_eq!(p.comment.map(|c| c.len()), Some(2));
            assert!(p.forum_post.is_empty());
        }
        other => panic!("not a forum page: {:?}", other),
    }
}

#[test]
fn malformed_forum_field_falls_through() {
    let bad_comment = record(vec![
        ("metatags", metatags()),
        ("discussionforumposting", MetaValue::List(vec![posting(None)])),
        ("comment", text("none")),
    ]);
    assert_eq!(classify(bad_comment).shape(), ShapeTag::DocShape);
    let bad_posting = record(vec![
        ("metatags", metatags()),
        (
            "discussionforumposting",
            MetaValue::List(vec![record(vec![("text", text("no date"))])]),
        ),
    ]);
    assert_eq!(classify(bad_posting).shape(), ShapeTag::DocShape);
    let bad_section = record(vec![
        ("metatags", metatags()),
        ("discussionforumposting", MetaValue::List(vec![posting(Some(MetaValue::Flag(true)))])),
    ]);
    assert_eq!(classify(bad_section).shape(), ShapeTag::DocShape);
}

#[test]
fn question_and_answer_shape() {
    let page = classify(qa_block());
    assert_eq!(page.shape(), ShapeTag::QAShape);
    assert_eq!(
        page,
        PageMap::QA(QaPage {
            question: vec![AskedQuestion {
                upvote_count: "12".to_string(),
                name: "How do I center a div?".to_string(),
                text: "I tried margin auto".to_string(),
            }],
            answer: vec![
                GivenAnswer { upvote_count: "10".to_string(), text: "Use flexbox".to_string() },
                GivenAnswer { upvote_count: "2".to_string(), text: "Use a table".to_string() },
            ],
        })
    );
}

#[test]
fn forum_shape_wins_over_the_others() {
    let block = record(vec![
        ("question", MetaValue::List(Vec::new())),
        ("answer", MetaValue::List(Vec::new())),
        ("metatags", metatags()),
        ("discussionforumposting", MetaValue::List(Vec::new())),
    ]);
    assert_eq!(classify(block).shape(), ShapeTag::ForumShape);
}

#[test]
fn documented_shape_needs_description_and_title() {
    let block = record(vec![("metatags", metatags()), ("cse_image", MetaValue::List(Vec::new()))]);
    assert_eq!(
        classify(block),
        PageMap::Doc(DocPage {
            metatags: vec![DocMeta {
                description: "The mouseover event is fired...".to_string(),
                title: "Element: mouseover event".to_string(),
            }],
        })
    );
    let empty = record(vec![("metatags", MetaValue::List(Vec::new()))]);
    assert_eq!(classify(empty), PageMap::Doc(DocPage { metatags: Vec::new() }));
}

#[test]
fn unknown_blocks_are_kept_whole() {
    let no_description = record(vec![(
        "metatags",
        MetaValue::List(vec![record(vec![("og:title", text("crates.io"))])]),
    )]);
    let kept = record(vec![(
        "metatags",
        MetaValue::List(vec![record(vec![("og:title", text("crates.io"))])]),
    )]);
    assert_eq!(classify(no_description), PageMap::Unknown(kept));
    for block in [
        MetaValue::Null,
        MetaValue::Flag(false),
        MetaValue::Number("3.5".to_string()),
        text("metatags"),
        MetaValue::List(vec![metatags()]),
        record(Vec::new()),
        record(vec![("metatags", MetaValue::Number("1".to_string()))]),
        record(vec![("metatags", MetaValue::List(vec![text("x")]))]),
        record(vec![("question", MetaValue::List(Vec::new()))]),
        record(vec![
            ("question", MetaValue::List(vec![record(vec![("name", text("n")), ("text", text("t"))])])),
            ("answer", MetaValue::List(Vec::new())),
        ]),
        record(vec![(
            "metatags",
            MetaValue::List(vec![record(vec![
                ("og:title", text("t")),
                ("og:description", MetaValue::Number("1".to_string())),
            ])]),
        )]),
    ] {
        assert_eq!(classify(block).shape(), ShapeTag::UnknownShape);
    }
}

#[test]
fn the_first_field_of_a_name_counts() {
    let block = record(vec![("metatags", text("broken")), ("metatags", metatags())]);
    assert_eq!(classify(block).shape(), ShapeTag::UnknownShape);
    let block = record(vec![("metatags", metatags()), ("metatags", text("broken"))]);
    assert_eq!(classify(block).shape(), ShapeTag::DocShape);
}

#[test]
fn parts_are_read_and_written() {
    let written = DocMeta { description: "d".to_string(), title: "t".to_string() }.write();
    assert_eq!(written, record(vec![("og:description", text("d")), ("og:title", text("t"))]));
    assert_eq!(
        DocMeta::read(&written),
        Some(DocMeta { description: "d".to_string(), title: "t".to_string() })
    );
    assert_eq!(GivenAnswer::read(&written), None);
    let list = MetaValue::List(vec![
        record(vec![("upvotecount", text("3")), ("text", text("a"))]),
        record(vec![("upvotecount", text("4")), ("text", text("b")), ("name", text("n"))]),
    ]);
    let answers: Vec<GivenAnswer> = read_list(&list).unwrap();
    assert_eq!(answers.len(), 2);
    assert_eq!(answers[1].text, "b");
    assert_eq!(read_list::<AskedQuestion>(&list), None);
    assert_eq!(read_list::<GivenAnswer>(&text("x")), None);
    assert_eq!(
        write_list(&answers),
        MetaValue::List(vec![
            record(vec![("upvotecount", text("3")), ("text", text("a"))]),
            record(vec![("upvotecount", text("4")), ("text", text("b"))]),
        ])
    );
}

#[test]
fn fields_are_found_by_their_exact_name() {
    let fields = vec![
        ("Text".to_string(), text("capital")),
        ("text".to_string(), MetaValue::Flag(true)),
        ("text".to_string(), text("second")),
        ("name".to_string(), text("n")),
    ];
    assert_eq!(find_field(&fields, "text"), Some(&MetaValue::Flag(true)));
    assert_eq!(find_field(&fields, "tex"), None);
    assert_eq!(text_of(&fields, "text"), None);
    assert_eq!(text_of(&fields, "name"), Some("n".to_string()));
    assert_eq!(text_of(&fields, "Text"), Some("capital".to_string()));
}

#[test]
fn single_shapes_are_read_alone() {
    assert!(read_forum(&qa_block()).is_none());
    assert!(read_qa(&qa_block()).is_some());
    assert!(read_doc(&qa_block()).is_some());
    assert!(read_doc(&MetaValue::Null).is_none());
}

#[test]
fn classifying_again_gives_the_same() {
    let blocks = vec![
        record(vec![
            ("extra", text("dropped")),
            ("metatags", metatags()),
            ("discussionforumposting", MetaValue::List(vec![posting(Some(text("help"))), posting(None)])),
            ("comment", MetaValue::List(vec![posting(None)])),
        ]),
        qa_block(),
        record(vec![("metatags", metatags())]),
        record(vec![("other", text("x"))]),
        MetaValue::Null,
    ];
    let shapes = [
        ShapeTag::ForumShape,
        ShapeTag::QAShape,
        ShapeTag::DocShape,
        ShapeTag::UnknownShape,
        ShapeTag::UnknownShape,
    ];
    for (block, shape) in blocks.into_iter().zip(shapes) {
        let first = classify(block);
        assert_eq!(first.shape(), shape);
        let again = classify(into_block(first));
        assert_eq!(again.shape(), shape);
        let third = classify(into_block(again));
        assert_eq!(third.shape(), shape);
    }
}

#[test]
fn written_blocks_name_their_fields() {
    let page = PageMap::QA(QaPage {
        question: vec![AskedQuestion {
            upvote_count: "1".to_string(),
            name: "n".to_string(),
            text: "t".to_string(),
        }],
        answer: Vec::new(),
    });
    assert_eq!(
        into_block(page),
        record(vec![
            (
                "question",
                MetaValue::List(vec![record(vec![
                    ("upvotecount", text("1")),
                    ("name", text("n")),
                    ("text", text("t")),
                ])]),
            ),
            ("answer", MetaValue::List(Vec::new())),
        ])
    );
    let forum = PageMap::Forum(ForumPage {
        metatags: vec![DocMeta { description: "d".to_string(), title: "t".to_string() }],
        forum_post: vec![ForumPosting {
            article_section: None,
            text: "x".to_string(),
            date_published: "y".to_string(),
        }],
        comment: None,
    });
    assert_eq!(
        into_block(forum),
        record(vec![
            (
                "metatags",
                MetaValue::List(vec![record(vec![("og:description", text("d")), ("og:title", text("t"))])]),
            ),
            (
                "discussionforumposting",
                MetaValue::List(vec![record(vec![
                    ("articlesection", MetaValue::Null),
                    ("text", text("x")),
                    ("datepublished", text("y")),
                ])]),
            ),
            ("comment", MetaValue::Null),
        ])
    );
}

#[test]
fn results_are_normalized_whatever_their_metadata() {
    let r = normalize_result(
        "snippet".to_string(),
        "title".to_string(),
        "https://www.reddit.com/r/rust/comments/ueyt1d/confused_about_how_to_use_tokio_to_process_a/".to_string(),
        record(vec![("metatags", metatags())]),
    );
    assert_eq!(r.pagemap.shape(), ShapeTag::DocShape);
    assert_eq!(r.title, "title");
    let odd = normalize_result("s".to_string(), "t".to_string(), "l".to_string(), MetaValue::Null);
    assert_eq!(odd.pagemap, PageMap::Unknown(MetaValue::Null));
    assert_eq!(
        result_to_block(odd),
        record(vec![
            ("snippet", text("s")),
            ("title", text("t")),
            ("link", text("l")),
            ("pagemap", MetaValue::Null),
        ])
    );
}

fn settings() -> Settings {
    Settings {
        google_search_engine_id: "engine".to_string(),
        google_search_api_key: "gkey".to_string(),
        stack_overflow_api_prefix: "p".to_string(),
        stack_overflow_api_key: None,
        mdn_base_path: "m".to_string(),
        scrapper_host: None,
    }
}

fn pair(name: &str, value: &str) -> Param {
    Param { name: name.to_string(), value: value.to_string() }
}

#[test]
fn search_request_with_all_parameters() {
    let q = SearchQuery {
        exact_terms: Some("enum string".to_string()),
        exclude_terms: Some("java".to_string()),
        start: Some(255),
        query: "typescript enum to string method".to_string(),
    };
    let r = search_request(&q, &settings());
    assert_eq!(r.url, "https://customsearch.googleapis.com/customsearch/v1?");
    assert_eq!(
        r.query,
        vec![
            pair("exactTerms", "enum string"),
            pair("excludeTerms", "java"),
            pair("start", "255"),
            pair("q", "typescript enum to string method"),
            pair("cx", "engine"),
            pair("key", "gkey"),
        ]
    );
}

#[test]
fn search_request_with_the_query_alone() {
    let q = SearchQuery { query: "rust".to_string(), ..SearchQuery::default() };
    assert_eq!(
        search_request(&q, &settings()).query,
        vec![pair("q", "rust"), pair("cx", "engine"), pair("key", "gkey")]
    );
    let q = SearchQuery { start: Some(0), query: "rust".to_string(), ..SearchQuery::default() };
    assert_eq!(
        search_request(&q, &settings()).query,
        vec![pair("start", "0"), pair("q", "rust"), pair("cx", "engine"), pair("key", "gkey")]
    );
}
