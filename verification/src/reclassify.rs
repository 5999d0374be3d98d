//! A classified block written back as a block, and what classifying it again
//! gives: the same as before.

use vstd::prelude::*;
use crate::classify::{
    classified, lemma_names_differ, tag_of, AskedQuestion, DocMeta, DocPage, DocPageModel,
    ForumPage, ForumPageModel, ForumPosting, GivenAnswer, PageMap, PageMapModel, QaPage,
    QaPageModel,
};
use crate::meta::{
    field_models, lemma_field_of_one, lemma_field_of_three, lemma_field_of_two,
    lemma_list_read_back, list_or_null, list_written, named, record, write_list,
    write_list_or_null, MetaModel, MetaValue,
};

verus! {

/// The metadata of a forum page as a block.
pub open spec fn forum_block(p: ForumPageModel) -> MetaModel {
    MetaModel::Record(
        seq![
            ("metatags"@, list_written::<DocMeta>(p.metatags)),
            ("discussionforumposting"@, list_written::<ForumPosting>(p.forum_post)),
            ("comment"@, list_or_null::<ForumPosting>(p.comment)),
        ],
    )
}

/// The metadata of a question-and-answer page as a block.
pub open spec fn qa_block(p: QaPageModel) -> MetaModel {
    MetaModel::Record(
        seq![
            ("question"@, list_written::<AskedQuestion>(p.question)),
            ("answer"@, list_written::<GivenAnswer>(p.answer)),
        ],
    )
}

/// The metadata of a documented page as a block.
pub open spec fn doc_block(p: DocPageModel) -> MetaModel {
    MetaModel::Record(seq![("metatags"@, list_written::<DocMeta>(p.metatags))])
}

/// A classified block written back as a block: the fields of its shape under
/// their names, and a block of unknown shape as it was.
pub open spec fn block_of(p: PageMapModel) -> MetaModel {
    match p {
        PageMapModel::Forum(f) => forum_block(f),
        PageMapModel::QA(q) => qa_block(q),
        PageMapModel::Doc(d) => doc_block(d),
        PageMapModel::Unknown(b) => b,
    }
}

/// The block of a forum page is classified as that forum page.
pub proof fn lemma_forum_read_back(p: ForumPageModel)
    ensures
        classified(forum_block(p)) == PageMapModel::Forum(p),
{
    lemma_names_differ();
    let m = list_written::<DocMeta>(p.metatags);
    let f = list_written::<ForumPosting>(p.forum_post);
    let c = list_or_null::<ForumPosting>(p.comment);
    lemma_field_of_three("metatags"@, m, "discussionforumposting"@, f, "comment"@, c, "metatags"@);
    lemma_field_of_three(
        "metatags"@,
        m,
        "discussionforumposting"@,
        f,
        "comment"@,
        c,
        "discussionforumposting"@,
    );
    lemma_field_of_three("metatags"@, m, "discussionforumposting"@, f, "comment"@, c, "comment"@);
    lemma_list_read_back::<DocMeta>(p.metatags);
    lemma_list_read_back::<ForumPosting>(p.forum_post);
    if p.comment is Some {
        lemma_list_read_back::<ForumPosting>(p.comment->0);
    }
}

/// The block of a question-and-answer page is classified as that page.
pub proof fn lemma_qa_read_back(p: QaPageModel)
    ensures
        classified(qa_block(p)) == PageMapModel::QA(p),
{
    lemma_names_differ();
    let q = list_written::<AskedQuestion>(p.question);
    let a = list_written::<GivenAnswer>(p.answer);
    lemma_field_of_two("question"@, q, "answer"@, a, "question"@);
    lemma_field_of_two("question"@, q, "answer"@, a, "answer"@);
    lemma_field_of_two("question"@, q, "answer"@, a, "metatags"@);
    lemma_list_read_back::<AskedQuestion>(p.question);
    lemma_list_read_back::<GivenAnswer>(p.answer);
}

/// The block of a documented page is classified as that page.
pub proof fn lemma_doc_read_back(p: DocPageModel)
    ensures
        classified(doc_block(p)) == PageMapModel::Doc(p),
{
    lemma_names_differ();
    let m = list_written::<DocMeta>(p.metatags);
    lemma_field_of_one("metatags"@, m, "metatags"@);
    lemma_field_of_one("metatags"@, m, "discussionforumposting"@);
    lemma_field_of_one("metatags"@, m, "question"@);
    lemma_list_read_back::<DocMeta>(p.metatags);
}

/// Classification is idempotent: a block that was classified and written
/// back as a block is classified as before, under the same shape and with
/// the same content.
pub proof fn lemma_classify_again(block: MetaModel)
    ensures
        classified(block_of(classified(block))) == classified(block),
        tag_of(classified(block_of(classified(block)))) == tag_of(classified(block)),
{
    match classified(block) {
        PageMapModel::Forum(p) => lemma_forum_read_back(p),
        PageMapModel::QA(p) => lemma_qa_read_back(p),
        PageMapModel::Doc(p) => lemma_doc_read_back(p),
        PageMapModel::Unknown(b) => {},
    }
}

/// Classification is deterministic: two blocks of the same content stand
/// under the same shape, with the same content.
pub proof fn lemma_same_block_same_shape(a: MetaValue, b: MetaValue)
    requires
        a@ == b@,
    ensures
        classified(a@) == classified(b@),
        tag_of(classified(a@)) == tag_of(classified(b@)),
{
}

/// Writes the metadata of a forum page as a block.
pub fn forum_to_block(p: &ForumPage) -> (r: MetaValue)
    ensures
        r@ == forum_block(p@),
{
    let mut fields: Vec<(String, MetaValue)> = Vec::new();
    fields.push(named("metatags", write_list(&p.metatags)));
    fields.push(named("discussionforumposting", write_list(&p.forum_post)));
    fields.push(named("comment", write_list_or_null(&p.comment)));
    assert(field_models(fields@) =~= seq![
        ("metatags"@, list_written::<DocMeta>(p@.metatags)),
        ("discussionforumposting"@, list_written::<ForumPosting>(p@.forum_post)),
        ("comment"@, list_or_null::<ForumPosting>(p@.comment)),
    ]);
    record(fields)
}

/// Writes the metadata of a question-and-answer page as a block.
pub fn qa_to_block(p: &QaPage) -> (r: MetaValue)
    ensures
        r@ == qa_block(p@),
{
    let mut fields: Vec<(String, MetaValue)> = Vec::new();
    fields.push(named("question", write_list(&p.question)));
    fields.push(named("answer", write_list(&p.answer)));
    assert(field_models(fields@) =~= seq![
        ("question"@, list_written::<AskedQuestion>(p@.question)),
        ("answer"@, list_written::<GivenAnswer>(p@.answer)),
    ]);
    record(fields)
}

/// Writes the metadata of a documented page as a block.
pub fn doc_to_block(p: &DocPage) -> (r: MetaValue)
    ensures
        r@ == doc_block(p@),
{
    let mut fields: Vec<(String, MetaValue)> = Vec::new();
    fields.push(named("metatags", write_list(&p.metatags)));
    assert(field_models(fields@) =~= seq![("metatags"@, list_written::<DocMeta>(p@.metatags))]);
    record(fields)
}

/// Writes a classified block back as a block. Classifying the result gives
/// the classified block again.
pub fn into_block(p: PageMap) -> (r: MetaValue)
    ensures
        r@ == block_of(p@),
        p is Unknown || classified(r@) == p@,
{
    proof {
        match p@ {
            PageMapModel::Forum(f) => lemma_forum_read_back(f),
            PageMapModel::QA(q) => lemma_qa_read_back(q),
            PageMapModel::Doc(d) => lemma_doc_read_back(d),
            PageMapModel::Unknown(_) => {},
        }
    }
    match p {
        PageMap::Forum(f) => forum_to_block(&f),
        PageMap::QA(q) => qa_to_block(&q),
        PageMap::Doc(d) => doc_to_block(&d),
        PageMap::Unknown(b) => b,
    }
}

} // verus!
