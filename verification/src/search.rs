//! The request that a structured search query is sent as, and the results
//! that come back, each with its metadata under a shape.

use vstd::prelude::*;
use crate::classify::{classified, classify, PageMap, PageMapModel};
use crate::meta::{field_models, lemma_record_model, MetaModel, MetaValue};
use crate::dispatch::{Settings, SettingsModel};
use crate::reclassify::{block_of, into_block};
use crate::request::{param, pairs, Param, Request, RequestModel};
use crate::text::{decimal, decimal_text, opt_text};

verus! {

/// A search, as the caller states it.
#[derive(Clone, Debug, Default, PartialEq, Eq)]
pub struct SearchQuery {
    /// Words that all have to occur exactly, separated by spaces.
    pub exact_terms: Option<String>,
    /// Words that must not occur, separated by spaces.
    pub exclude_terms: Option<String>,
    /// The index of the first result, for the pages after the first.
    pub start: Option<u8>,
    /// The search terms.
    pub query: String,
}

pub ghost struct SearchQueryModel {
    pub exact_terms: Option<Seq<char>>,
    pub exclude_terms: Option<Seq<char>>,
    pub start: Option<nat>,
    pub query: Seq<char>,
}

impl View for SearchQuery {
    type V = SearchQueryModel;

    open spec fn view(&self) -> SearchQueryModel {
        SearchQueryModel {
            exact_terms: opt_text(self.exact_terms),
            exclude_terms: opt_text(self.exclude_terms),
            start: match self.start {
                Some(n) => Some(n as nat),
                None => None,
            },
            query: self.query@,
        }
    }
}

/// The address of the search API.
pub open spec fn search_url() -> Seq<char> {
    "https://customsearch.googleapis.com/customsearch/v1?"@
}

/// A parameter that is sent only where it has a value.
pub open spec fn optional_pair(name: Seq<char>, value: Option<Seq<char>>) -> Seq<
    (Seq<char>, Seq<char>),
> {
    match value {
        Some(v) => seq![(name, v)],
        None => Seq::empty(),
    }
}

/// The start index in decimal, where one is given.
pub open spec fn start_text(start: Option<nat>) -> Option<Seq<char>> {
    match start {
        Some(n) => Some(decimal(n)),
        None => None,
    }
}

/// The parameters of a search in the order in which they are sent: the
/// optional ones that have a value, then the terms, the engine and the key.
pub open spec fn search_pairs(q: SearchQueryModel, s: SettingsModel) -> Seq<
    (Seq<char>, Seq<char>),
> {
    optional_pair("exactTerms"@, q.exact_terms) + optional_pair("excludeTerms"@, q.exclude_terms)
        + optional_pair("start"@, start_text(q.start)) + seq![
        ("q"@, q.query),
        ("cx"@, s.google_search_engine_id),
        ("key"@, s.google_search_api_key),
    ]
}

/// Builds the request that a search is sent as.
pub fn search_request(q: &SearchQuery, settings: &Settings) -> (r: Request)
    ensures
        r@ == (RequestModel { url: search_url(), query: search_pairs(q@, settings@) }),
{
    let mut query: Vec<Param> = Vec::new();
    match &q.exact_terms {
        Some(terms) => {
            query.push(param("exactTerms", terms.as_str()));
        },
        None => {},
    }
    assert(pairs(query@) =~= optional_pair("exactTerms"@, q@.exact_terms));
    match &q.exclude_terms {
        Some(terms) => {
            query.push(param("excludeTerms", terms.as_str()));
        },
        None => {},
    }
    assert(pairs(query@) =~= optional_pair("exactTerms"@, q@.exact_terms) + optional_pair(
        "excludeTerms"@,
        q@.exclude_terms,
    ));
    match q.start {
        Some(n) => {
            query.push(param("start", decimal_text(n as u64).as_str()));
        },
        None => {},
    }
    assert(pairs(query@) =~= optional_pair("exactTerms"@, q@.exact_terms) + optional_pair(
        "excludeTerms"@,
        q@.exclude_terms,
    ) + optional_pair("start"@, start_text(q@.start)));
    query.push(param("q", q.query.as_str()));
    query.push(param("cx", settings.google_search_engine_id.as_str()));
    query.push(param("key", settings.google_search_api_key.as_str()));
    assert(pairs(query@) =~= search_pairs(q@, settings@));
    Request { url: "https://customsearch.googleapis.com/customsearch/v1?".to_owned(), query }
}

/// One result of a search, its metadata classified.
#[derive(Debug, PartialEq, Eq)]
pub struct SearchResult {
    pub snippet: String,
    pub title: String,
    pub link: String,
    pub pagemap: PageMap,
}

pub ghost struct SearchResultModel {
    pub snippet: Seq<char>,
    pub title: Seq<char>,
    pub link: Seq<char>,
    pub pagemap: PageMapModel,
}

impl View for SearchResult {
    type V = SearchResultModel;

    open spec fn view(&self) -> SearchResultModel {
        SearchResultModel {
            snippet: self.snippet@,
            title: self.title@,
            link: self.link@,
            pagemap: self.pagemap@,
        }
    }
}

/// A result as the record that is shown to the caller.
pub open spec fn result_block(r: SearchResultModel) -> MetaModel {
    MetaModel::Record(
        seq![
            ("snippet"@, MetaModel::Text(r.snippet)),
            ("title"@, MetaModel::Text(r.title)),
            ("link"@, MetaModel::Text(r.link)),
            ("pagemap"@, block_of(r.pagemap)),
        ],
    )
}

/// Makes a result of its texts and its metadata block, which is classified.
/// Whatever the block holds, the result is made.
pub fn normalize_result(snippet: String, title: String, link: String, block: MetaValue) -> (r:
    SearchResult)
    ensures
        r@ == (SearchResultModel {
            snippet: snippet@,
            title: title@,
            link: link@,
            pagemap: classified(block@),
        }),
{
    SearchResult { snippet, title, link, pagemap: classify(block) }
}

/// Writes a result as the record that is shown to the caller.
pub fn result_to_block(r: SearchResult) -> (b: MetaValue)
    ensures
        b@ == result_block(r@),
{
    let mut fields: Vec<(String, MetaValue)> = Vec::new();
    fields.push(("snippet".to_owned(), MetaValue::Text(r.snippet)));
    fields.push(("title".to_owned(), MetaValue::Text(r.title)));
    fields.push(("link".to_owned(), MetaValue::Text(r.link)));
    fields.push(("pagemap".to_owned(), into_block(r.pagemap)));
    proof {
        lemma_record_model(fields);
        assert(field_models(fields@) =~= seq![
            ("snippet"@, MetaModel::Text(r@.snippet)),
            ("title"@, MetaModel::Text(r@.title)),
            ("link"@, MetaModel::Text(r@.link)),
            ("pagemap"@, block_of(r@.pagemap)),
        ]);
    }
    MetaValue::Record(fields)
}

} // verus!
