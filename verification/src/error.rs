//! The failures that a retrieval can end in.

use vstd::prelude::*;
use vstd::string::StringExecFns;

verus! {

/// What is wrong with an input that is rejected before any request is made.
#[derive(Clone, Copy, Debug, PartialEq, Eq, Structural)]
pub enum InputFault {
    /// The text is no absolute URL.
    MalformedUrl,
    /// The URL names no host.
    MissingHost,
    /// The path of a question's URL holds no question id.
    MissingQuestionId,
    /// The path of a discussion's URL holds no submission id.
    MissingSubmissionId,
}

/// Why a retrieval failed.
#[derive(Clone, Debug, PartialEq, Eq)]
pub enum FetchError {
    /// The input was rejected before any request was made.
    InvalidInput(InputFault),
    /// The source knows no item of this id.
    UpstreamEmpty(String),
    /// A source could not be reached or answered with what cannot be read;
    /// the text is the cause.
    UpstreamFailure(String),
    /// No document is stored at this path.
    NotFound(String),
    /// No adapter serves this host.
    UnsupportedHost(String),
}

pub ghost enum FetchErrorModel {
    InvalidInput(InputFault),
    UpstreamEmpty(Seq<char>),
    UpstreamFailure(Seq<char>),
    NotFound(Seq<char>),
    UnsupportedHost(Seq<char>),
}

impl View for FetchError {
    type V = FetchErrorModel;

    open spec fn view(&self) -> FetchErrorModel {
        match self {
            FetchError::InvalidInput(f) => FetchErrorModel::InvalidInput(*f),
            FetchError::UpstreamEmpty(id) => FetchErrorModel::UpstreamEmpty(id@),
            FetchError::UpstreamFailure(cause) => FetchErrorModel::UpstreamFailure(cause@),
            FetchError::NotFound(path) => FetchErrorModel::NotFound(path@),
            FetchError::UnsupportedHost(host) => FetchErrorModel::UnsupportedHost(host@),
        }
    }
}

/// The sentence that reports an input fault.
pub open spec fn fault_text(f: InputFault) -> Seq<char> {
    match f {
        InputFault::MalformedUrl => "failed to parse url as URL"@,
        InputFault::MissingHost => "invalid URL: no host component"@,
        InputFault::MissingQuestionId => "invalid stack overflow URL: missing question id"@,
        InputFault::MissingSubmissionId =>
            "invalid reddit URL: missing comment/submission id in path"@,
    }
}

/// The sentence that reports a failure, with the id, cause, path or host that
/// it is about.
pub open spec fn message_text(e: FetchErrorModel) -> Seq<char> {
    match e {
        FetchErrorModel::InvalidInput(f) => fault_text(f),
        FetchErrorModel::UpstreamEmpty(id) => "the source returned no item with this ID: "@ + id,
        FetchErrorModel::UpstreamFailure(cause) => cause,
        FetchErrorModel::NotFound(path) => "unable to find MDN content at path: "@ + path,
        FetchErrorModel::UnsupportedHost(host) => "invalid host: "@ + host
            + ". Must be from provided search results"@,
    }
}

impl InputFault {
    /// The sentence that reports this fault.
    pub fn message(&self) -> (r: String)
        ensures
            r@ == fault_text(*self),
    {
        match self {
            InputFault::MalformedUrl => "failed to parse url as URL".to_owned(),
            InputFault::MissingHost => "invalid URL: no host component".to_owned(),
            InputFault::MissingQuestionId =>
                "invalid stack overflow URL: missing question id".to_owned(),
            InputFault::MissingSubmissionId =>
                "invalid reddit URL: missing comment/submission id in path".to_owned(),
        }
    }
}

impl FetchError {
    /// The sentence that reports this failure.
    pub fn message(&self) -> (r: String)
        ensures
            r@ == message_text(self@),
    {
        match self {
            FetchError::InvalidInput(f) => f.message(),
            FetchError::UpstreamEmpty(id) => {
                let mut r = "the source returned no item with this ID: ".to_owned();
                r.append(id.as_str());
                r
            },
            FetchError::UpstreamFailure(cause) => cause.clone(),
            FetchError::NotFound(path) => {
                let mut r = "unable to find MDN content at path: ".to_owned();
                r.append(path.as_str());
                r
            },
            FetchError::UnsupportedHost(host) => {
                let mut r = "invalid host: ".to_owned();
                r.append(host.as_str());
                r.append(". Must be from provided search results");
                r
            },
        }
    }

    /// Whether the failure lies with what the caller asked for: an input that
    /// is refused, or a host that no adapter serves. Every other failure lies
    /// with a source.
    pub fn is_callers_fault(&self) -> (r: bool)
        ensures
            r == (self@ is InvalidInput || self@ is UnsupportedHost),
    {
        match self {
            FetchError::InvalidInput(_) => true,
            FetchError::UnsupportedHost(_) => true,
            _ => false,
        }
    }

    /// Whether the failure was found before any request was made.
    pub fn is_invalid_input(&self) -> (r: bool)
        ensures
            r == (self@ is InvalidInput),
    {
        match self {
            FetchError::InvalidInput(_) => true,
            _ => false,
        }
    }
}

} // verus!
