//! Classification of the metadata block of a search result.
//!
//! A block does not say what it is. Its shape is found from the fields it
//! holds: the shapes are tried in a fixed order, the one with the most
//! required fields first, and the first that fits is taken. A block that fits
//! none is kept as it is.

use vstd::prelude::*;
use crate::meta::{
    field_models, lemma_field_of_three, lemma_field_of_two, lemma_record_model, list_field,
    named, opt_view, optional_list_field, optional_text_field, optional_text_of, read_list_field,
    read_optional_list_field, record, text_field, text_of, text_or_null, text_value,
    text_value_or_null, views, MetaModel, MetaValue, Part, opt_views,
};
use crate::text::opt_text;

verus! {

/// The description and the title that a page gives of itself.
#[derive(Clone, Debug, PartialEq, Eq)]
pub struct DocMeta {
    pub description: String,
    pub title: String,
}

pub ghost struct DocMetaModel {
    pub description: Seq<char>,
    pub title: Seq<char>,
}

impl View for DocMeta {
    type V = DocMetaModel;

    open spec fn view(&self) -> DocMetaModel {
        DocMetaModel { description: self.description@, title: self.title@ }
    }
}

/// A posting in a forum.
#[derive(Clone, Debug, PartialEq, Eq)]
pub struct ForumPosting {
    pub article_section: Option<String>,
    pub text: String,
    pub date_published: String,
}

pub ghost struct ForumPostingModel {
    pub article_section: Option<Seq<char>>,
    pub text: Seq<char>,
    pub date_published: Seq<char>,
}

impl View for ForumPosting {
    type V = ForumPostingModel;

    open spec fn view(&self) -> ForumPostingModel {
        ForumPostingModel {
            article_section: opt_text(self.article_section),
            text: self.text@,
            date_published: self.date_published@,
        }
    }
}

/// A question, as the metadata of a question-and-answer page show it.
#[derive(Clone, Debug, PartialEq, Eq)]
pub struct AskedQuestion {
    pub upvote_count: String,
    pub name: String,
    pub text: String,
}

pub ghost struct AskedQuestionModel {
    pub upvote_count: Seq<char>,
    pub name: Seq<char>,
    pub text: Seq<char>,
}

impl View for AskedQuestion {
    type V = AskedQuestionModel;

    open spec fn view(&self) -> AskedQuestionModel {
        AskedQuestionModel { upvote_count: self.upvote_count@, name: self.name@, text: self.text@ }
    }
}

/// An answer, as the metadata of a question-and-answer page show it.
#[derive(Clone, Debug, PartialEq, Eq)]
pub struct GivenAnswer {
    pub upvote_count: String,
    pub text: String,
}

pub ghost struct GivenAnswerModel {
    pub upvote_count: Seq<char>,
    pub text: Seq<char>,
}

impl View for GivenAnswer {
    type V = GivenAnswerModel;

    open spec fn view(&self) -> GivenAnswerModel {
        GivenAnswerModel { upvote_count: self.upvote_count@, text: self.text@ }
    }
}

/// The names of the fields that the parts and the shapes are told by differ.
pub proof fn lemma_names_differ()
    ensures
        "og:description"@ != "og:title"@,
        "articlesection"@ != "text"@,
        "articlesection"@ != "datepublished"@,
        "text"@ != "datepublished"@,
        "upvotecount"@ != "name"@,
        "upvotecount"@ != "text"@,
        "name"@ != "text"@,
        "metatags"@ != "discussionforumposting"@,
        "metatags"@ != "comment"@,
        "discussionforumposting"@ != "comment"@,
        "question"@ != "answer"@,
        "metatags"@ != "question"@,
        "metatags"@ != "answer"@,
{
    reveal_strlit("og:description");
    reveal_strlit("og:title");
    reveal_strlit("articlesection");
    reveal_strlit("text");
    reveal_strlit("datepublished");
    reveal_strlit("upvotecount");
    reveal_strlit("name");
    reveal_strlit("metatags");
    reveal_strlit("discussionforumposting");
    reveal_strlit("comment");
    reveal_strlit("question");
    reveal_strlit("answer");
    assert("og:description"@.len() != "og:title"@.len());
    assert("articlesection"@.len() != "datepublished"@.len());
    assert("articlesection"@.len() != "text"@.len());
    assert("text"@.len() != "datepublished"@.len());
    assert("upvotecount"@.len() != "name"@.len());
    assert("metatags"@.len() != "discussionforumposting"@.len());
    assert("metatags"@.len() != "comment"@.len());
    assert("discussionforumposting"@.len() != "comment"@.len());
    assert("question"@.len() != "answer"@.len());
    assert("metatags"@.len() != "answer"@.len());
    assert("name"@[0] != "text"@[0]);
    assert("metatags"@[0] != "question"@[0]);
}

impl Part for DocMeta {
    open spec fn read_from(v: MetaModel) -> Option<DocMetaModel> {
        match v {
            MetaModel::Record(fields) => match (
                text_field(fields, "og:description"@),
                text_field(fields, "og:title"@),
            ) {
                (Some(description), Some(title)) => Some(DocMetaModel { description, title }),
                _ => None,
            },
            _ => None,
        }
    }

    open spec fn written(part: DocMetaModel) -> MetaModel {
        MetaModel::Record(
            seq![
                ("og:description"@, MetaModel::Text(part.description)),
                ("og:title"@, MetaModel::Text(part.title)),
            ],
        )
    }

    proof fn lemma_read_back(part: DocMetaModel) {
        lemma_names_differ();
        let d = MetaModel::Text(part.description);
        let t = MetaModel::Text(part.title);
        lemma_field_of_two("og:description"@, d, "og:title"@, t, "og:description"@);
        lemma_field_of_two("og:description"@, d, "og:title"@, t, "og:title"@);
    }

    fn read(v: &MetaValue) -> (r: Option<DocMeta>) {
        match v {
            MetaValue::Record(fields) => {
                proof {
                    lemma_record_model(*fields);
                }
                match text_of(fields, "og:description") {
                    Some(description) => match text_of(fields, "og:title") {
                        Some(title) => Some(DocMeta { description, title }),
                        None => None,
                    },
                    None => None,
                }
            },
            _ => None,
        }
    }

    fn write(&self) -> (r: MetaValue) {
        let mut fields: Vec<(String, MetaValue)> = Vec::new();
        fields.push(named("og:description", text_value(&self.description)));
        fields.push(named("og:title", text_value(&self.title)));
        assert(field_models(fields@) =~= seq![
            ("og:description"@, MetaModel::Text(self@.description)),
            ("og:title"@, MetaModel::Text(self@.title)),
        ]);
        record(fields)
    }
}

impl Part for ForumPosting {
    open spec fn read_from(v: MetaModel) -> Option<ForumPostingModel> {
        match v {
            MetaModel::Record(fields) => match (
                optional_text_field(fields, "articlesection"@),
                text_field(fields, "text"@),
                text_field(fields, "datepublished"@),
            ) {
                (Some(article_section), Some(text), Some(date_published)) => Some(
                    ForumPostingModel { article_section, text, date_published },
                ),
                _ => None,
            },
            _ => None,
        }
    }

    open spec fn written(part: ForumPostingModel) -> MetaModel {
        MetaModel::Record(
            seq![
                ("articlesection"@, text_or_null(part.article_section)),
                ("text"@, MetaModel::Text(part.text)),
                ("datepublished"@, MetaModel::Text(part.date_published)),
            ],
        )
    }

    proof fn lemma_read_back(part: ForumPostingModel) {
        lemma_names_differ();
        let s = text_or_null(part.article_section);
        let t = MetaModel::Text(part.text);
        let d = MetaModel::Text(part.date_published);
        lemma_field_of_three(
            "articlesection"@,
            s,
            "text"@,
            t,
            "datepublished"@,
            d,
            "articlesection"@,
        );
        lemma_field_of_three("articlesection"@, s, "text"@, t, "datepublished"@, d, "text"@);
        lemma_field_of_three(
            "articlesection"@,
            s,
            "text"@,
            t,
            "datepublished"@,
            d,
            "datepublished"@,
        );
    }

    fn read(v: &MetaValue) -> (r: Option<ForumPosting>) {
        match v {
            MetaValue::Record(fields) => {
                proof {
                    lemma_record_model(*fields);
                }
                match optional_text_of(fields, "articlesection") {
                    Some(article_section) => match text_of(fields, "text") {
                        Some(text) => match text_of(fields, "datepublished") {
                            Some(date_published) => Some(
                                ForumPosting { article_section, text, date_published },
                            ),
                            None => None,
                        },
                        None => None,
                    },
                    None => None,
                }
            },
            _ => None,
        }
    }

    fn write(&self) -> (r: MetaValue) {
        let mut fields: Vec<(String, MetaValue)> = Vec::new();
        fields.push(named("articlesection", text_value_or_null(&self.article_section)));
        fields.push(named("text", text_value(&self.text)));
        fields.push(named("datepublished", text_value(&self.date_published)));
        assert(field_models(fields@) =~= seq![
            ("articlesection"@, text_or_null(self@.article_section)),
            ("text"@, MetaModel::Text(self@.text)),
            ("datepublished"@, MetaModel::Text(self@.date_published)),
        ]);
        record(fields)
    }
}

impl Part for AskedQuestion {
    open spec fn read_from(v: MetaModel) -> Option<AskedQuestionModel> {
        match v {
            MetaModel::Record(fields) => match (
                text_field(fields, "upvotecount"@),
                text_field(fields, "name"@),
                text_field(fields, "text"@),
            ) {
                (Some(upvote_count), Some(name), Some(text)) => Some(
                    AskedQuestionModel { upvote_count, name, text },
                ),
                _ => None,
            },
            _ => None,
        }
    }

    open spec fn written(part: AskedQuestionModel) -> MetaModel {
        MetaModel::Record(
            seq![
                ("upvotecount"@, MetaModel::Text(part.upvote_count)),
                ("name"@, MetaModel::Text(part.name)),
                ("text"@, MetaModel::Text(part.text)),
            ],
        )
    }

    proof fn lemma_read_back(part: AskedQuestionModel) {
        lemma_names_differ();
        let u = MetaModel::Text(part.upvote_count);
        let n = MetaModel::Text(part.name);
        let t = MetaModel::Text(part.text);
        lemma_field_of_three("upvotecount"@, u, "name"@, n, "text"@, t, "upvotecount"@);
        lemma_field_of_three("upvotecount"@, u, "name"@, n, "text"@, t, "name"@);
        lemma_field_of_three("upvotecount"@, u, "name"@, n, "text"@, t, "text"@);
    }

    fn read(v: &MetaValue) -> (r: Option<AskedQuestion>) {
        match v {
            MetaValue::Record(fields) => {
                proof {
                    lemma_record_model(*fields);
                }
                match text_of(fields, "upvotecount") {
                    Some(upvote_count) => match text_of(fields, "name") {
                        Some(name) => match text_of(fields, "text") {
                            Some(text) => Some(AskedQuestion { upvote_count, name, text }),
                            None => None,
                        },
                        None => None,
                    },
                    None => None,
                }
            },
            _ => None,
        }
    }

    fn write(&self) -> (r: MetaValue) {
        let mut fields: Vec<(String, MetaValue)> = Vec::new();
        fields.push(named("upvotecount", text_value(&self.upvote_count)));
        fields.push(named("name", text_value(&self.name)));
        fields.push(named("text", text_value(&self.text)));
        assert(field_models(fields@) =~= seq![
            ("upvotecount"@, MetaModel::Text(self@.upvote_count)),
            ("name"@, MetaModel::Text(self@.name)),
            ("text"@, MetaModel::Text(self@.text)),
        ]);
        record(fields)
    }
}

impl Part for GivenAnswer {
    open spec fn read_from(v: MetaModel) -> Option<GivenAnswerModel> {
        match v {
            MetaModel::Record(fields) => match (
                text_field(fields, "upvotecount"@),
                text_field(fields, "text"@),
            ) {
                (Some(upvote_count), Some(text)) => Some(GivenAnswerModel { upvote_count, text }),
                _ => None,
            },
            _ => None,
        }
    }

    open spec fn written(part: GivenAnswerModel) -> MetaModel {
        MetaModel::Record(
            seq![
                ("upvotecount"@, MetaModel::Text(part.upvote_count)),
                ("text"@, MetaModel::Text(part.text)),
            ],
        )
    }

    proof fn lemma_read_back(part: GivenAnswerModel) {
        lemma_names_differ();
        let u = MetaModel::Text(part.upvote_count);
        let t = MetaModel::Text(part.text);
        lemma_field_of_two("upvotecount"@, u, "text"@, t, "upvotecount"@);
        lemma_field_of_two("upvotecount"@, u, "text"@, t, "text"@);
    }

    fn read(v: &MetaValue) -> (r: Option<GivenAnswer>) {
        match v {
            MetaValue::Record(fields) => {
                proof {
                    lemma_record_model(*fields);
                }
                match text_of(fields, "upvotecount") {
                    Some(upvote_count) => match text_of(fields, "text") {
                        Some(text) => Some(GivenAnswer { upvote_count, text }),
                        None => None,
                    },
                    None => None,
                }
            },
            _ => None,
        }
    }

    fn write(&self) -> (r: MetaValue) {
        let mut fields: Vec<(String, MetaValue)> = Vec::new();
        fields.push(named("upvotecount", text_value(&self.upvote_count)));
        fields.push(named("text", text_value(&self.text)));
        assert(field_models(fields@) =~= seq![
            ("upvotecount"@, MetaModel::Text(self@.upvote_count)),
            ("text"@, MetaModel::Text(self@.text)),
        ]);
        record(fields)
    }
}

/// The metadata of a forum page.
#[derive(Clone, Debug, PartialEq, Eq)]
pub struct ForumPage {
    pub metatags: Vec<DocMeta>,
    pub forum_post: Vec<ForumPosting>,
    pub comment: Option<Vec<ForumPosting>>,
}

pub ghost struct ForumPageModel {
    pub metatags: Seq<DocMetaModel>,
    pub forum_post: Seq<ForumPostingModel>,
    pub comment: Option<Seq<ForumPostingModel>>,
}

impl View for ForumPage {
    type V = ForumPageModel;

    open spec fn view(&self) -> ForumPageModel {
        ForumPageModel {
            metatags: views(self.metatags@),
            forum_post: views(self.forum_post@),
            comment: opt_views(self.comment),
        }
    }
}

/// The metadata of a question-and-answer page.
#[derive(Clone, Debug, PartialEq, Eq)]
pub struct QaPage {
    pub question: Vec<AskedQuestion>,
    pub answer: Vec<GivenAnswer>,
}

pub ghost struct QaPageModel {
    pub question: Seq<AskedQuestionModel>,
    pub answer: Seq<GivenAnswerModel>,
}

impl View for QaPage {
    type V = QaPageModel;

    open spec fn view(&self) -> QaPageModel {
        QaPageModel { question: views(self.question@), answer: views(self.answer@) }
    }
}

/// The metadata of a page that gives a description and a title, no more.
#[derive(Clone, Debug, PartialEq, Eq)]
pub struct DocPage {
    pub metatags: Vec<DocMeta>,
}

pub ghost struct DocPageModel {
    pub metatags: Seq<DocMetaModel>,
}

impl View for DocPage {
    type V = DocPageModel;

    open spec fn view(&self) -> DocPageModel {
        DocPageModel { metatags: views(self.metatags@) }
    }
}

/// The shapes that a metadata block is known in.
#[derive(Clone, Copy, Debug, PartialEq, Eq, Structural)]
pub enum ShapeTag {
    ForumShape,
    QAShape,
    DocShape,
    UnknownShape,
}

/// A metadata block under its shape. A block of no known shape is kept whole.
#[derive(Debug, PartialEq, Eq)]
pub enum PageMap {
    Forum(ForumPage),
    QA(QaPage),
    Doc(DocPage),
    Unknown(MetaValue),
}

pub ghost enum PageMapModel {
    Forum(ForumPageModel),
    QA(QaPageModel),
    Doc(DocPageModel),
    Unknown(MetaModel),
}

impl View for PageMap {
    type V = PageMapModel;

    open spec fn view(&self) -> PageMapModel {
        match self {
            PageMap::Forum(p) => PageMapModel::Forum(p@),
            PageMap::QA(p) => PageMapModel::QA(p@),
            PageMap::Doc(p) => PageMapModel::Doc(p@),
            PageMap::Unknown(b) => PageMapModel::Unknown(b@),
        }
    }
}

/// The shape that a classified block stands under.
pub open spec fn tag_of(p: PageMapModel) -> ShapeTag {
    match p {
        PageMapModel::Forum(_) => ShapeTag::ForumShape,
        PageMapModel::QA(_) => ShapeTag::QAShape,
        PageMapModel::Doc(_) => ShapeTag::DocShape,
        PageMapModel::Unknown(_) => ShapeTag::UnknownShape,
    }
}

/// A block read as the metadata of a forum page: a list of descriptions and
/// titles and a list of postings are required, a list of comments may follow.
pub open spec fn forum_of(block: MetaModel) -> Option<ForumPageModel> {
    match block {
        MetaModel::Record(fields) => match (
            list_field::<DocMeta>(fields, "metatags"@),
            list_field::<ForumPosting>(fields, "discussionforumposting"@),
            optional_list_field::<ForumPosting>(fields, "comment"@),
        ) {
            (Some(metatags), Some(forum_post), Some(comment)) => Some(
                ForumPageModel { metatags, forum_post, comment },
            ),
            _ => None,
        },
        _ => None,
    }
}

/// A block read as the metadata of a question-and-answer page: a list of
/// questions and a list of answers are required.
pub open spec fn qa_of(block: MetaModel) -> Option<QaPageModel> {
    match block {
        MetaModel::Record(fields) => match (
            list_field::<AskedQuestion>(fields, "question"@),
            list_field::<GivenAnswer>(fields, "answer"@),
        ) {
            (Some(question), Some(answer)) => Some(QaPageModel { question, answer }),
            _ => None,
        },
        _ => None,
    }
}

/// A block read as the metadata of a page with descriptions and titles.
pub open spec fn doc_of(block: MetaModel) -> Option<DocPageModel> {
    match block {
        MetaModel::Record(fields) => match list_field::<DocMeta>(fields, "metatags"@) {
            Some(metatags) => Some(DocPageModel { metatags }),
            None => None,
        },
        _ => None,
    }
}

/// The block under the first shape that it fits: forum page, then
/// question-and-answer page, then documented page. A block that fits none is
/// kept whole.
pub open spec fn classified(block: MetaModel) -> PageMapModel {
    match forum_of(block) {
        Some(p) => PageMapModel::Forum(p),
        None => match qa_of(block) {
            Some(p) => PageMapModel::QA(p),
            None => match doc_of(block) {
                Some(p) => PageMapModel::Doc(p),
                None => PageMapModel::Unknown(block),
            },
        },
    }
}

/// Reads a block as the metadata of a forum page.
pub fn read_forum(block: &MetaValue) -> (r: Option<ForumPage>)
    ensures
        opt_view(r) == forum_of(block@),
{
    match block {
        MetaValue::Record(fields) => {
            proof {
                lemma_record_model(*fields);
            }
            match read_list_field::<DocMeta>(fields, "metatags") {
                Some(metatags) => match read_list_field::<ForumPosting>(
                    fields,
                    "discussionforumposting",
                ) {
                    Some(forum_post) => match read_optional_list_field::<ForumPosting>(
                        fields,
                        "comment",
                    ) {
                        Some(comment) => Some(ForumPage { metatags, forum_post, comment }),
                        None => None,
                    },
                    None => None,
                },
                None => None,
            }
        },
        _ => None,
    }
}

/// Reads a block as the metadata of a question-and-answer page.
pub fn read_qa(block: &MetaValue) -> (r: Option<QaPage>)
    ensures
        opt_view(r) == qa_of(block@),
{
    match block {
        MetaValue::Record(fields) => {
            proof {
                lemma_record_model(*fields);
            }
            match read_list_field::<AskedQuestion>(fields, "question") {
                Some(question) => match read_list_field::<GivenAnswer>(fields, "answer") {
                    Some(answer) => Some(QaPage { question, answer }),
                    None => None,
                },
                None => None,
            }
        },
        _ => None,
    }
}

/// Reads a block as the metadata of a page with descriptions and titles.
pub fn read_doc(block: &MetaValue) -> (r: Option<DocPage>)
    ensures
        opt_view(r) == doc_of(block@),
{
    match block {
        MetaValue::Record(fields) => {
            proof {
                lemma_record_model(*fields);
            }
            match read_list_field::<DocMeta>(fields, "metatags") {
                Some(metatags) => Some(DocPage { metatags }),
                None => None,
            }
        },
        _ => None,
    }
}

/// Classifies a metadata block: it is put under the first shape that it
/// fits, and kept whole where it fits none. No block is refused.
pub fn classify(block: MetaValue) -> (r: PageMap)
    ensures
        r@ == classified(block@),
{
    match read_forum(&block) {
        Some(p) => PageMap::Forum(p),
        None => match read_qa(&block) {
            Some(p) => PageMap::QA(p),
            None => match read_doc(&block) {
                Some(p) => PageMap::Doc(p),
                None => PageMap::Unknown(block),
            },
        },
    }
}

impl PageMap {
    /// The shape that the block stands under.
    pub fn shape(&self) -> (r: ShapeTag)
        ensures
            r == tag_of(self@),
    {
        match self {
            PageMap::Forum(_) => ShapeTag::ForumShape,
            PageMap::QA(_) => ShapeTag::QAShape,
            PageMap::Doc(_) => ShapeTag::DocShape,
            PageMap::Unknown(_) => ShapeTag::UnknownShape,
        }
    }
}

} // verus!
