//! Assembly of a question-and-answer page from the two answers of the
//! question-and-answer source: the question, and the answers given to it.

use vstd::prelude::*;
use vstd::string::StringExecFns;
use crate::error::{FetchError, FetchErrorModel};
use crate::request::{param, pairs, Param, Request, RequestModel};
use crate::text::{decimal, decimal_text, opt_text, texts};

verus! {

/// Who wrote a question or an answer.
#[derive(Clone, Debug, PartialEq, Eq)]
pub struct Owner {
    pub display_name: String,
    pub reputation: usize,
    pub link: String,
}

/// What a question and an answer have in common.
#[derive(Clone, Debug, PartialEq, Eq)]
pub struct Post {
    pub owner: Owner,
    pub score: usize,
    pub content_license: String,
    pub body: String,
}

/// A question.
#[derive(Clone, Debug, PartialEq, Eq)]
pub struct Question {
    pub post: Post,
    pub tags: Vec<String>,
    pub is_answered: bool,
    pub view_count: usize,
    pub link: String,
    pub answer_count: usize,
    pub title: String,
}

/// An answer to a question.
#[derive(Clone, Debug, PartialEq, Eq)]
pub struct Answer {
    pub post: Post,
    pub is_accepted: bool,
    pub question_id: usize,
}

/// One item of an answer of the source.
#[derive(Clone, Debug, PartialEq, Eq)]
pub enum QAItem {
    Question(Question),
    Answer(Answer),
}

pub ghost struct PostModel {
    pub owner_name: Seq<char>,
    pub owner_reputation: nat,
    pub owner_link: Seq<char>,
    pub score: nat,
    pub content_license: Seq<char>,
    pub body: Seq<char>,
}

impl View for Post {
    type V = PostModel;

    open spec fn view(&self) -> PostModel {
        PostModel {
            owner_name: self.owner.display_name@,
            owner_reputation: self.owner.reputation as nat,
            owner_link: self.owner.link@,
            score: self.score as nat,
            content_license: self.content_license@,
            body: self.body@,
        }
    }
}

pub ghost enum QAModel {
    Question {
        post: PostModel,
        tags: Seq<Seq<char>>,
        is_answered: bool,
        view_count: nat,
        link: Seq<char>,
        answer_count: nat,
        title: Seq<char>,
    },
    Answer { post: PostModel, is_accepted: bool, question_id: nat },
}

impl View for QAItem {
    type V = QAModel;

    open spec fn view(&self) -> QAModel {
        match self {
            QAItem::Question(q) => QAModel::Question {
                post: q.post@,
                tags: texts(q.tags@),
                is_answered: q.is_answered,
                view_count: q.view_count as nat,
                link: q.link@,
                answer_count: q.answer_count as nat,
                title: q.title@,
            },
            QAItem::Answer(a) => QAModel::Answer {
                post: a.post@,
                is_accepted: a.is_accepted,
                question_id: a.question_id as nat,
            },
        }
    }
}

/// The models of a list of items, in order.
pub open spec fn item_models(items: Seq<QAItem>) -> Seq<QAModel> {
    Seq::new(items.len(), |i: int| items[i]@)
}

/// The word that tells an accepted answer from the others.
pub open spec fn acceptance(is_accepted: bool) -> Seq<char> {
    if is_accepted {
        "Accepted"@
    } else {
        "Unaccepted"@
    }
}

/// The block of text that shows an item: a question under its title, an
/// answer under its acceptance and its score.
pub open spec fn item_block(item: QAModel) -> Seq<char> {
    match item {
        QAModel::Question { title, post, .. } => "<h1>"@ + title + "</h1><p>"@ + post.body
            + "</p>"@,
        QAModel::Answer { post, is_accepted, .. } => "<h1>"@ + acceptance(is_accepted)
            + " answer with "@ + decimal(post.score) + " votes</h1><p>"@ + post.body + "</p>"@,
    }
}

/// The page of a question: its block first, then the blocks of the answers in
/// the order in which the source gave them.
pub open spec fn page(question: QAModel, answers: Seq<QAModel>) -> Seq<Seq<char>> {
    Seq::new(
        answers.len() + 1,
        |i: int|
            if i == 0 {
                item_block(question)
            } else {
                item_block(answers[i - 1])
            },
    )
}

/// What the assembly of a page gives: the page of the last item that the
/// question request returned, and `UpstreamEmpty` with the id where it
/// returned none.
pub open spec fn assembled(
    question_id: Seq<char>,
    questions: Seq<QAModel>,
    answers: Seq<QAModel>,
) -> Result<Seq<Seq<char>>, FetchErrorModel> {
    if questions.len() == 0 {
        Err(FetchErrorModel::UpstreamEmpty(question_id))
    } else {
        Ok(page(questions.last(), answers))
    }
}

/// The address of the request for a question.
pub open spec fn question_url(prefix: Seq<char>, question_id: Seq<char>) -> Seq<char> {
    prefix + "/questions/"@ + question_id
}

/// The address of the request for the answers to a question.
pub open spec fn answers_url(prefix: Seq<char>, question_id: Seq<char>) -> Seq<char> {
    prefix + "/questions/"@ + question_id + "/answers"@
}

/// The parameters that both requests carry: the site, the filter that asks
/// for the bodies, and the key where there is one.
pub open spec fn source_query(key: Option<Seq<char>>) -> Seq<(Seq<char>, Seq<char>)> {
    let fixed = seq![("site"@, "stackoverflow"@), ("filter"@, "withbody"@)];
    match key {
        Some(k) => fixed.push(("key"@, k)),
        None => fixed,
    }
}

/// The page of a question with `n` answers holds `n + 1` blocks: the
/// question's first, then the answers' in the order given. With no answer it
/// holds the question's block alone.
pub proof fn lemma_page_shape(question: QAModel, answers: Seq<QAModel>)
    ensures
        page(question, answers).len() == answers.len() + 1,
        page(question, answers)[0] == item_block(question),
        forall|i: int|
            0 <= i < answers.len() ==> page(question, answers)[i + 1] == item_block(
                #[trigger] answers[i],
            ),
        answers.len() == 0 ==> page(question, answers) == seq![item_block(question)],
{
    if answers.len() == 0 {
        assert(page(question, answers) =~= seq![item_block(question)]);
    }
}

/// The assembly succeeds exactly where the question request returned an
/// item, whatever the answers are; where it returned none, the failure is
/// `UpstreamEmpty` with the id.
pub proof fn lemma_assembly_outcome(
    question_id: Seq<char>,
    questions: Seq<QAModel>,
    answers: Seq<QAModel>,
)
    ensures
        questions.len() > 0 ==> assembled(question_id, questions, answers) == Ok::<
            Seq<Seq<char>>,
            FetchErrorModel,
        >(page(questions.last(), answers)),
        questions.len() == 0 ==> assembled(question_id, questions, answers) == Err::<
            Seq<Seq<char>>,
            FetchErrorModel,
        >(FetchErrorModel::UpstreamEmpty(question_id)),
{
}

/// Renders one item.
pub fn render_item(item: &QAItem) -> (r: String)
    ensures
        r@ == item_block(item@),
{
    match item {
        QAItem::Question(q) => {
            let mut r = "<h1>".to_owned();
            r.append(q.title.as_str());
            r.append("</h1><p>");
            r.append(q.post.body.as_str());
            r.append("</p>");
            r
        },
        QAItem::Answer(a) => {
            let mut r = "<h1>".to_owned();
            if a.is_accepted {
                r.append("Accepted");
            } else {
                r.append("Unaccepted");
            }
            r.append(" answer with ");
            r.append(decimal_text(a.post.score as u64).as_str());
            r.append(" votes</h1><p>");
            r.append(a.post.body.as_str());
            r.append("</p>");
            r
        },
    }
}

/// Renders the page of a question and its answers: one block for the
/// question, then one for each answer, in the order given.
pub fn render_page(question: &QAItem, answers: &Vec<QAItem>) -> (r: Vec<String>)
    ensures
        texts(r@) == page(question@, item_models(answers@)),
        r@.len() == answers@.len() + 1,
        r@[0]@ == item_block(question@),
{
    let mut blocks: Vec<String> = Vec::new();
    blocks.push(render_item(question));
    let mut i: usize = 0;
    while i < answers.len()
        invariant
            i <= answers.len(),
            blocks@.len() == i + 1,
            blocks@[0]@ == item_block(question@),
            forall|j: int| 0 <= j < i ==> (#[trigger] blocks@[j + 1])@ == item_block(answers@[j]@),
        decreases answers.len() - i,
    {
        blocks.push(render_item(&answers[i]));
        i = i + 1;
    }
    assert(texts(blocks@) =~= page(question@, item_models(answers@))) by {
        assert forall|k: int| 0 <= k < blocks@.len() implies texts(blocks@)[k] == page(
            question@,
            item_models(answers@),
        )[k] by {
            if k > 0 {
                assert(blocks@[(k - 1) + 1]@ == item_block(answers@[k - 1]@));
            }
        }
    }
    blocks
}

/// Picks the question out of what the question request returned: the last
/// item. Where the request returned no item, the source knows no question of
/// this id, and nothing more is to be asked of it.
pub fn found_question<'a>(question_id: &str, questions: &'a Vec<QAItem>) -> (r: Result<
    &'a QAItem,
    FetchError,
>)
    ensures
        match r {
            Ok(q) => questions@.len() > 0 && *q == questions@.last(),
            Err(e) => questions@.len() == 0 && e@ == FetchErrorModel::UpstreamEmpty(question_id@),
        },
{
    if questions.len() == 0 {
        Err(FetchError::UpstreamEmpty(question_id.to_owned()))
    } else {
        Ok(&questions[questions.len() - 1])
    }
}

/// Assembles the page of a question from what the two requests returned. The
/// question is the last item of the answer to the question request; where that
/// answer holds no item the assembly fails with `UpstreamEmpty` and the id. An
/// empty list of answers is no failure: the page then holds the question alone.
pub fn assemble_qa(question_id: &str, questions: &Vec<QAItem>, answers: &Vec<QAItem>) -> (r: Result<
    Vec<String>,
    FetchError,
>)
    ensures
        match r {
            Ok(blocks) => assembled(question_id@, item_models(questions@), item_models(answers@))
                == Ok::<Seq<Seq<char>>, FetchErrorModel>(texts(blocks@)),
            Err(e) => assembled(question_id@, item_models(questions@), item_models(answers@))
                == Err::<Seq<Seq<char>>, FetchErrorModel>(e@),
        },
        r is Ok <==> questions@.len() > 0,
        r is Ok ==> r->Ok_0@.len() == answers@.len() + 1 && r->Ok_0@[0]@ == item_block(
            questions@.last()@,
        ),
{
    match found_question(question_id, questions) {
        Ok(question) => Ok(render_page(question, answers)),
        Err(e) => Err(e),
    }
}

/// The parameters that both requests to the source carry.
pub fn source_params(key: &Option<String>) -> (r: Vec<Param>)
    ensures
        pairs(r@) == source_query(opt_text(*key)),
{
    let mut params: Vec<Param> = Vec::new();
    params.push(param("site", "stackoverflow"));
    params.push(param("filter", "withbody"));
    match key {
        Some(k) => {
            params.push(param("key", k.as_str()));
            assert(pairs(params@) =~= source_query(opt_text(*key)));
        },
        None => {
            assert(pairs(params@) =~= source_query(opt_text(*key)));
        },
    }
    params
}

/// The request for a question by its id.
pub fn question_request(prefix: &str, key: &Option<String>, question_id: &str) -> (r: Request)
    ensures
        r@ == (RequestModel {
            url: question_url(prefix@, question_id@),
            query: source_query(opt_text(*key)),
        }),
{
    let mut url = prefix.to_owned();
    url.append("/questions/");
    url.append(question_id);
    Request { url, query: source_params(key) }
}

/// The request for the answers to a question by its id.
pub fn answers_request(prefix: &str, key: &Option<String>, question_id: &str) -> (r: Request)
    ensures
        r@ == (RequestModel {
            url: answers_url(prefix@, question_id@),
            query: source_query(opt_text(*key)),
        }),
{
    let mut url = prefix.to_owned();
    url.append("/questions/");
    url.append(question_id);
    url.append("/answers");
    Request { url, query: source_params(key) }
}

} // verus!
