use nimbus::error::FetchError;
use nimbus::qa::{
    answers_request, assemble_qa, found_question, question_request, render_item, render_page, source_params,
    Answer, Owner, Post, QAItem, Question,
};
use nimbus::request::Param;

fn post(score: usize, body: &str) -> Post {
    Post {
        owner: Owner {
            display_name: "someone".to_string(),
            reputation: 1234,
            link: "https://stackoverflow.com/users/1/someone".to_string(),
        },
        score,
        content_license: "CC BY-SA 4.0".to_string(),
        body: body.to_string(),
    }
}

fn question(title: &str, body: &str) -> QAItem {
    QAItem::Question(Question {
        post: post(7, body),
        tags: vec!["css".to_string(), "html".to_string()],
        is_answered: true,
        view_count: 1000,
        link: "https://stackoverflow.com/questions/12345/some-title".to_string(),
        answer_count: 2,
        title: title.to_string(),
    })
}

fn answer(score: usize, accepted: bool, body: &str) -> QAItem {
    QAItem::Answer(Answer { post: post(score, body), is_accepted: accepted, question_id: 12345 })
}

#[test]
fn question_with_two_answers_gives_three_blocks_in_order() {
    let questions = vec![question("Centering", "How do I center a div?")];
    let answers = vec![answer(10, true, "Use flexbox."), answer(2, false, "Use a table.")];
    let blocks = assemble_qa("12345", &questions, &answers).unwrap();
    assert_eq!(
        blocks,
        vec![
            "<h1>Centering</h1><p>How do I center a div?</p>".to_string(),
            "<h1>Accepted answer with 10 votes</h1><p>Use flexbox.</p>".to_string(),
            "<h1>Unaccepted answer with 2 votes</h1><p>Use a table.</p>".to_string(),
        ]
    );
}

#[test]
fn answers_keep_the_order_of_the_source() {
    let questions = vec![question("T", "B")];
    let answers = vec![
        answer(1, false, "low"),
        answer(300, false, "high"),
        answer(20, true, "accepted"),
    ];
    let blocks = assemble_qa("1", &questions, &answers).unwrap();
    assert_eq!(blocks.len(), 4);
    assert_eq!(blocks[1], "<h1>Unaccepted answer with 1 votes</h1><p>low</p>");
    assert_eq!(blocks[2], "<h1>Unaccepted answer with 300 votes</h1><p>high</p>");
    assert_eq!(blocks[3], "<h1>Accepted answer with 20 votes</h1><p>accepted</p>");
}

#[test]
fn question_without_answers_gives_one_block() {
    let questions = vec![question("Alone", "Anyone?")];
    let blocks = assemble_qa("9", &questions, &Vec::new()).unwrap();
    assert_eq!(blocks, vec!["<h1>Alone</h1><p>Anyone?</p>".to_string()]);
}

#[test]
fn no_question_is_upstream_empty() {
    let answers = vec![answer(1, false, "orphan")];
    assert_eq!(
        assemble_qa("404", &Vec::new(), &answers),
        Err(FetchError::UpstreamEmpty("404".to_string()))
    );
    assert_eq!(
        assemble_qa("404", &Vec::new(), &Vec::new()),
        Err(FetchError::UpstreamEmpty("404".to_string()))
    );
}

#[test]
fn the_question_is_found_before_the_answers_are_asked_for() {
    let questions = vec![question("First", "one"), question("Second", "two")];
    assert_eq!(found_question("1", &questions), Ok(&questions[1]));
    assert_eq!(
        found_question("77", &Vec::new()),
        Err(FetchError::UpstreamEmpty("77".to_string()))
    );
}

#[test]
fn the_last_item_of_the_question_answer_is_the_question() {
    let questions = vec![question("First", "one"), question("Second", "two")];
    let blocks = assemble_qa("1", &questions, &Vec::new()).unwrap();
    assert_eq!(blocks, vec!["<h1>Second</h1><p>two</p>".to_string()]);
}

#[test]
fn items_are_rendered_by_their_kind_wherever_they_stand() {
    let blocks = render_page(&answer(0, false, "a"), &vec![question("Q", "b")]);
    assert_eq!(
        blocks,
        vec![
            "<h1>Unaccepted answer with 0 votes</h1><p>a</p>".to_string(),
            "<h1>Q</h1><p>b</p>".to_string(),
        ]
    );
    assert_eq!(render_item(&answer(18446744073709551615, true, "")), "<h1>Accepted answer with 18446744073709551615 votes</h1><p></p>");
}

#[test]
fn requests_carry_site_filter_and_key() {
    let q = question_request("https://api.stackexchange.com/2.3", &None, "12345");
    assert_eq!(q.url, "https://api.stackexchange.com/2.3/questions/12345");
    assert_eq!(
        q.query,
        vec![
            Param { name: "site".to_string(), value: "stackoverflow".to_string() },
            Param { name: "filter".to_string(), value: "withbody".to_string() },
        ]
    );
    let a = answers_request("https://api.stackexchange.com/2.3", &Some("k3y".to_string()), "12345");
    assert_eq!(a.url, "https://api.stackexchange.com/2.3/questions/12345/answers");
    assert_eq!(
        a.query,
        vec![
            Param { name: "site".to_string(), value: "stackoverflow".to_string() },
            Param { name: "filter".to_string(), value: "withbody".to_string() },
            Param { name: "key".to_string(), value: "k3y".to_string() },
        ]
    );
    assert_eq!(source_params(&None).len(), 2);
}
