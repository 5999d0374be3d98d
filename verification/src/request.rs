//! Requests to the outside sources, as plain values: the address and the query
//! parameters in the order in which they are sent.

use vstd::prelude::*;

verus! {

/// One query parameter.
#[derive(Clone, Debug, PartialEq, Eq)]
pub struct Param {
    pub name: String,
    pub value: String,
}

impl View for Param {
    type V = (Seq<char>, Seq<char>);

    open spec fn view(&self) -> (Seq<char>, Seq<char>) {
        (self.name@, self.value@)
    }
}

/// A GET request: an address and its query parameters.
#[derive(Clone, Debug, PartialEq, Eq)]
pub struct Request {
    pub url: String,
    pub query: Vec<Param>,
}

pub ghost struct RequestModel {
    pub url: Seq<char>,
    pub query: Seq<(Seq<char>, Seq<char>)>,
}

/// The parameters of a list, each as a pair of name and value.
pub open spec fn pairs(query: Seq<Param>) -> Seq<(Seq<char>, Seq<char>)> {
    Seq::new(query.len(), |i: int| query[i]@)
}

impl View for Request {
    type V = RequestModel;

    open spec fn view(&self) -> RequestModel {
        RequestModel { url: self.url@, query: pairs(self.query@) }
    }
}

/// Makes a parameter of a name and a value.
pub fn param(name: &str, value: &str) -> (r: Param)
    ensures
        r@ == (name@, value@),
{
    Param { name: name.to_owned(), value: value.to_owned() }
}

} // verus!
