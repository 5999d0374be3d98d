//! The dispatch of a resource URL to the adapter that serves its host.
//!
//! Hosts are compared by exact equality with the three known names. A URL of
//! another host goes to the fallback scraper where one is configured, and is
//! refused where none is.

use vstd::prelude::*;
use vstd::string::StringExecFns;
use crate::document::{document_file, document_path};
use crate::error::{FetchError, FetchErrorModel, InputFault};
use crate::qa::{answers_request, answers_url, question_request, question_url, source_query};
use crate::request::{param, pairs, Param, Request, RequestModel};
use crate::text::{chars_of, opt_text};
use crate::thread::{COMMENT_DEPTH, COMMENT_LIMIT};

verus! {

/// What is configured once and read by every retrieval.
#[derive(Clone, Debug, PartialEq, Eq)]
pub struct Settings {
    pub google_search_engine_id: String,
    pub google_search_api_key: String,
    pub stack_overflow_api_prefix: String,
    pub stack_overflow_api_key: Option<String>,
    pub mdn_base_path: String,
    /// Host and port of the fallback scraper, where one runs.
    pub scrapper_host: Option<String>,
}

pub ghost struct SettingsModel {
    pub google_search_engine_id: Seq<char>,
    pub google_search_api_key: Seq<char>,
    pub stack_overflow_api_prefix: Seq<char>,
    pub stack_overflow_api_key: Option<Seq<char>>,
    pub mdn_base_path: Seq<char>,
    pub scrapper_host: Option<Seq<char>>,
}

impl View for Settings {
    type V = SettingsModel;

    open spec fn view(&self) -> SettingsModel {
        SettingsModel {
            google_search_engine_id: self.google_search_engine_id@,
            google_search_api_key: self.google_search_api_key@,
            stack_overflow_api_prefix: self.stack_overflow_api_prefix@,
            stack_overflow_api_key: opt_text(self.stack_overflow_api_key),
            mdn_base_path: self.mdn_base_path@,
            scrapper_host: opt_text(self.scrapper_host),
        }
    }
}

/// The parts of a parsed URL that the dispatch reads.
#[derive(Clone, Debug, PartialEq, Eq)]
pub struct UrlParts {
    /// The host as the URL gives it, if it names one.
    pub host: Option<String>,
    /// The path, from its leading slash up to the query or fragment.
    pub path: String,
    /// The whole URL in its normal form.
    pub text: String,
}

pub ghost struct UrlModel {
    pub host: Option<Seq<char>>,
    pub path: Seq<char>,
    pub text: Seq<char>,
}

impl View for UrlParts {
    type V = UrlModel;

    open spec fn view(&self) -> UrlModel {
        UrlModel { host: opt_text(self.host), path: self.path@, text: self.text@ }
    }
}

/// What has to be done to retrieve a resource.
#[derive(Clone, Debug, PartialEq, Eq)]
pub enum Route {
    /// Ask the question-and-answer source for the question and for its answers.
    QuestionAnswers { question_id: String, question: Request, answers: Request },
    /// Read the file of a documentation page.
    Document { path: String },
    /// Ask the discussion site for a submission and for its comments, down to
    /// `depth` levels of replies and `limit` comments in all.
    Discussion { submission_id: String, depth: u32, limit: u32 },
    /// Ask the fallback scraper for the page.
    Fallback { request: Request },
}

pub ghost enum RouteModel {
    QuestionAnswers { question_id: Seq<char>, question: RequestModel, answers: RequestModel },
    Document { path: Seq<char> },
    Discussion { submission_id: Seq<char>, depth: nat, limit: nat },
    Fallback { request: RequestModel },
}

impl View for Route {
    type V = RouteModel;

    open spec fn view(&self) -> RouteModel {
        match self {
            Route::QuestionAnswers { question_id, question, answers } => {
                RouteModel::QuestionAnswers {
                    question_id: question_id@,
                    question: question@,
                    answers: answers@,
                }
            },
            Route::Document { path } => RouteModel::Document { path: path@ },
            Route::Discussion { submission_id, depth, limit } => RouteModel::Discussion {
                submission_id: submission_id@,
                depth: *depth as nat,
                limit: *limit as nat,
            },
            Route::Fallback { request } => RouteModel::Fallback { request: request@ },
        }
    }
}

/// The host of the question-and-answer site.
pub open spec fn qa_host() -> Seq<char> {
    "stackoverflow.com"@
}

/// The host of the documentation.
pub open spec fn documentation_host() -> Seq<char> {
    "developer.mozilla.org"@
}

/// The host of the discussion site.
pub open spec fn discussion_host() -> Seq<char> {
    "www.reddit.com"@
}

/// How many characters of `s` stand before its first slash: all of them where
/// it holds none.
pub open spec fn first_slash(s: Seq<char>) -> int
    decreases s.len(),
{
    if s.len() == 0 || s[0] == '/' {
        0
    } else {
        1 + first_slash(s.skip(1))
    }
}

/// The piece of number `n`, counted from 0, of the pieces that the slashes cut
/// `s` into. A text without a slash is one piece, which may be empty.
pub open spec fn piece(s: Seq<char>, n: nat) -> Option<Seq<char>>
    decreases n,
{
    let k = first_slash(s);
    if n == 0 {
        Some(s.take(k))
    } else if k >= s.len() {
        None
    } else {
        piece(s.skip(k + 1), (n - 1) as nat)
    }
}

/// The path segment of number `n`, counted from 0: a piece of what follows
/// the leading slash of the path. A path without a leading slash has none.
pub open spec fn segment(path: Seq<char>, n: nat) -> Option<Seq<char>> {
    if path.len() > 0 && path[0] == '/' {
        piece(path.skip(1), n)
    } else {
        None
    }
}

/// The request to the fallback scraper for a page.
pub open spec fn scrape_query(scrapper_host: Seq<char>, url: Seq<char>) -> RequestModel {
    RequestModel {
        url: scrapper_host + "/api/article"@,
        query: seq![("url"@, url), ("timeout"@, "10000"@)],
    }
}

/// Where a URL is routed: by its host to one of the three adapters, with the
/// id taken from the path where the adapter needs one; any other host to the
/// fallback scraper where one is configured.
pub open spec fn routed(u: UrlModel, s: SettingsModel) -> Result<RouteModel, FetchErrorModel> {
    match u.host {
        None => Err(FetchErrorModel::InvalidInput(InputFault::MissingHost)),
        Some(host) => {
            if host == qa_host() {
                match segment(u.path, 1) {
                    Some(id) => Ok(
                        RouteModel::QuestionAnswers {
                            question_id: id,
                            question: RequestModel {
                                url: question_url(s.stack_overflow_api_prefix, id),
                                query: source_query(s.stack_overflow_api_key),
                            },
                            answers: RequestModel {
                                url: answers_url(s.stack_overflow_api_prefix, id),
                                query: source_query(s.stack_overflow_api_key),
                            },
                        },
                    ),
                    None => Err(FetchErrorModel::InvalidInput(InputFault::MissingQuestionId)),
                }
            } else if host == documentation_host() {
                Ok(RouteModel::Document { path: document_file(s.mdn_base_path, u.path) })
            } else if host == discussion_host() {
                match segment(u.path, 3) {
                    Some(id) => Ok(
                        RouteModel::Discussion {
                            submission_id: id,
                            depth: COMMENT_DEPTH as nat,
                            limit: COMMENT_LIMIT as nat,
                        },
                    ),
                    None => Err(FetchErrorModel::InvalidInput(InputFault::MissingSubmissionId)),
                }
            } else {
                match s.scrapper_host {
                    Some(scrapper) => Ok(
                        RouteModel::Fallback { request: scrape_query(scrapper, u.text) },
                    ),
                    None => Err(FetchErrorModel::UnsupportedHost(host)),
                }
            }
        },
    }
}

/// Whether a host is none of the three that an adapter serves.
pub open spec fn is_unknown_host(host: Seq<char>) -> bool {
    host != qa_host() && host != documentation_host() && host != discussion_host()
}

/// A URL without a host is refused as invalid input. A URL of a host that no
/// adapter serves goes to the fallback scraper, with the URL as it is, where
/// one is configured, and is refused as of an unsupported host where none is.
pub proof fn lemma_dispatch_of_other_hosts(u: UrlModel, s: SettingsModel)
    ensures
        u.host is None ==> routed(u, s) == Err::<RouteModel, FetchErrorModel>(
            FetchErrorModel::InvalidInput(InputFault::MissingHost),
        ),
        u.host is Some && is_unknown_host(u.host->0) && s.scrapper_host is None ==> routed(u, s)
            == Err::<RouteModel, FetchErrorModel>(FetchErrorModel::UnsupportedHost(u.host->0)),
        u.host is Some && is_unknown_host(u.host->0) && s.scrapper_host is Some ==> routed(u, s)
            == Ok::<RouteModel, FetchErrorModel>(
            RouteModel::Fallback { request: scrape_query(s.scrapper_host->0, u.text) },
        ),
{
}

/// The adapter is chosen by the host alone and by exact equality: a URL of
/// one of the three hosts goes to the adapter of that host or is refused for
/// the id that its path lacks. It is never sent to the fallback scraper, nor
/// refused as of an unsupported host, whatever is configured.
pub proof fn lemma_known_hosts_keep_their_adapter(u: UrlModel, s: SettingsModel)
    requires
        u.host is Some,
        !is_unknown_host(u.host->0),
    ensures
        u.host->0 == qa_host() ==> (routed(u, s) matches Ok(RouteModel::QuestionAnswers { .. }))
            || routed(u, s) == Err::<RouteModel, FetchErrorModel>(
            FetchErrorModel::InvalidInput(InputFault::MissingQuestionId),
        ),
        u.host->0 == documentation_host() ==> routed(u, s) == Ok::<RouteModel, FetchErrorModel>(
            RouteModel::Document { path: document_file(s.mdn_base_path, u.path) },
        ),
        u.host->0 == discussion_host() ==> (routed(u, s) matches Ok(RouteModel::Discussion { .. }))
            || routed(u, s) == Err::<RouteModel, FetchErrorModel>(
            FetchErrorModel::InvalidInput(InputFault::MissingSubmissionId),
        ),
{
    reveal_strlit("stackoverflow.com");
    reveal_strlit("developer.mozilla.org");
    reveal_strlit("www.reddit.com");
    assert(qa_host().len() != documentation_host().len());
    assert(qa_host().len() != discussion_host().len());
    assert(documentation_host().len() != discussion_host().len());
}

/// What `Url::parse` of the url crate makes of a text: the host, the path and
/// the normal form of the URL, and `None` where the text is no absolute URL.
pub uninterp spec fn parsed_url(text: Seq<char>) -> Option<UrlModel>;

/// Where the resource of a URL given as text is retrieved from.
pub open spec fn planned(text: Seq<char>, s: SettingsModel) -> Result<RouteModel, FetchErrorModel> {
    match parsed_url(text) {
        Some(u) => routed(u, s),
        None => Err(FetchErrorModel::InvalidInput(InputFault::MalformedUrl)),
    }
}

/// The view of a route or of the failure to find one.
pub open spec fn outcome(r: Result<Route, FetchError>) -> Result<RouteModel, FetchErrorModel> {
    match r {
        Ok(route) => Ok(route@),
        Err(e) => Err(e@),
    }
}

/// The view of the parts of a URL, where there are any.
pub open spec fn opt_url(u: Option<UrlParts>) -> Option<UrlModel> {
    match u {
        Some(parts) => Some(parts@),
        None => None,
    }
}

/// `Url::parse` of the url crate, with `Url::host_str`, `Url::path` and
/// `Url::as_str` to read the parsed value. Nothing is claimed of the parts
/// but that they depend on the text alone.
#[verifier::external_body]
fn parse_url(text: &str) -> (r: Option<UrlParts>)
    ensures
        opt_url(r) == parsed_url(text@),
{
    match url::Url::parse(text) {
        Ok(u) => Some(
            UrlParts {
                host: u.host_str().map(|h| h.to_owned()),
                path: u.path().to_owned(),
                text: u.as_str().to_owned(),
            },
        ),
        Err(_) => None,
    }
}

/// The first slash of `s` stands at `k` where no slash stands before `k` and
/// `k` is the end of `s` or the place of a slash.
pub proof fn lemma_first_slash_at(s: Seq<char>, k: int)
    requires
        0 <= k <= s.len(),
        forall|j: int| 0 <= j < k ==> s[j] != '/',
        k == s.len() || s[k] == '/',
    ensures
        first_slash(s) == k,
    decreases k,
{
    if k > 0 {
        assert(s[0] != '/');
        assert forall|j: int| 0 <= j < k - 1 implies s.skip(1)[j] != '/' by {
            assert(s.skip(1)[j] == s[j + 1]);
        }
        lemma_first_slash_at(s.skip(1), k - 1);
    }
}

/// The path segment of number `n`, counted from 0.
pub fn path_segment(path: &str, n: usize) -> (r: Option<String>)
    ensures
        opt_text(r) == segment(path@, n as nat),
{
    let chars = chars_of(path);
    if chars.len() == 0 || chars[0] != '/' {
        return None;
    }
    let mut start: usize = 1;
    let mut left: usize = n;
    loop
        invariant
            chars@ == path@,
            1 <= start <= chars.len(),
            segment(path@, n as nat) == piece(path@.skip(start as int), left as nat),
        decreases chars.len() - start,
    {
        let mut end: usize = start;
        while end < chars.len() && chars[end] != '/'
            invariant
                start <= end <= chars.len(),
                forall|j: int| start <= j < end ==> chars@[j] != '/',
            decreases chars.len() - end,
        {
            end = end + 1;
        }
        proof {
            let rest = path@.skip(start as int);
            assert forall|j: int| 0 <= j < end - start implies rest[j] != '/' by {
                assert(rest[j] == chars@[start + j]);
            }
            lemma_first_slash_at(rest, end - start);
            assert(rest.take(end - start) =~= path@.subrange(start as int, end as int));
            if end < chars.len() {
                assert(rest.skip(end - start + 1) =~= path@.skip(end + 1));
            }
        }
        if left == 0 {
            return Some(path.substring_char(start, end).to_owned());
        }
        if end == chars.len() {
            return None;
        }
        start = end + 1;
        left = left - 1;
    }
}

/// The request to the fallback scraper for the page at `url`.
pub fn scrape_request(scrapper_host: &str, url: &str) -> (r: Request)
    ensures
        r@ == scrape_query(scrapper_host@, url@),
{
    let mut address = scrapper_host.to_owned();
    address.append("/api/article");
    let mut query: Vec<Param> = Vec::new();
    query.push(param("url", url));
    query.push(param("timeout", "10000"));
    assert(pairs(query@) =~= seq![("url"@, url@), ("timeout"@, "10000"@)]);
    Request { url: address, query }
}

/// Whether a host is exactly the one named.
fn is_host(host: &String, name: &str) -> (r: bool)
    ensures
        r == (host@ == name@),
{
    *host == name.to_owned()
}

/// Routes a parsed URL to the adapter of its host.
pub fn route(url: &UrlParts, settings: &Settings) -> (r: Result<Route, FetchError>)
    ensures
        outcome(r) == routed(url@, settings@),
{
    match &url.host {
        None => Err(FetchError::InvalidInput(InputFault::MissingHost)),
        Some(host) => {
            if is_host(host, "stackoverflow.com") {
                match path_segment(url.path.as_str(), 1) {
                    Some(id) => {
                        let question = question_request(
                            settings.stack_overflow_api_prefix.as_str(),
                            &settings.stack_overflow_api_key,
                            id.as_str(),
                        );
                        let answers = answers_request(
                            settings.stack_overflow_api_prefix.as_str(),
                            &settings.stack_overflow_api_key,
                            id.as_str(),
                        );
                        Ok(Route::QuestionAnswers { question_id: id, question, answers })
                    },
                    None => Err(FetchError::InvalidInput(InputFault::MissingQuestionId)),
                }
            } else if is_host(host, "developer.mozilla.org") {
                Ok(
                    Route::Document {
                        path: document_path(settings.mdn_base_path.as_str(), url.path.as_str()),
                    },
                )
            } else if is_host(host, "www.reddit.com") {
                match path_segment(url.path.as_str(), 3) {
                    Some(id) => Ok(
                        Route::Discussion {
                            submission_id: id,
                            depth: COMMENT_DEPTH,
                            limit: COMMENT_LIMIT,
                        },
                    ),
                    None => Err(FetchError::InvalidInput(InputFault::MissingSubmissionId)),
                }
            } else {
                match &settings.scrapper_host {
                    Some(scrapper) => Ok(
                        Route::Fallback {
                            request: scrape_request(scrapper.as_str(), url.text.as_str()),
                        },
                    ),
                    None => Err(FetchError::UnsupportedHost(host.clone())),
                }
            }
        },
    }
}

/// Parses a URL and routes it. A text that is no absolute URL is refused as
/// malformed before anything else is looked at.
pub fn plan_fetch(url: &str, settings: &Settings) -> (r: Result<Route, FetchError>)
    ensures
        outcome(r) == planned(url@, settings@),
{
    match parse_url(url) {
        Some(parts) => route(&parts, settings),
        None => Err(FetchError::InvalidInput(InputFault::MalformedUrl)),
    }
}

/// The blocks of a page that was retrieved as one text, unchanged.
pub fn single_block(content: String) -> (r: Vec<String>)
    ensures
        r@ == seq![content],
{
    let mut blocks: Vec<String> = Vec::new();
    blocks.push(content);
    blocks
}

} // verus!
