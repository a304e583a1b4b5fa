//! The parameters of a query: which operation of the API and which country.

use vstd::prelude::*;
use vstd::string::StringExecFns;

verus! {

/// The operation of the API that a request calls.
#[derive(Clone, Copy, Debug, PartialEq, Eq)]
pub enum Endpoint {
    TopHeadlines,
}

/// The country whose headlines a request asks for.
#[derive(Clone, Copy, Debug, PartialEq, Eq)]
pub enum Country {
    Us,
}

impl Endpoint {
    /// The path segment that names this operation.
    pub open spec fn segment(self) -> Seq<char> {
        match self {
            Endpoint::TopHeadlines => "top-headlines"@,
        }
    }

    /// The path segment that names this operation, as text.
    pub fn to_string(&self) -> (text: String)
        ensures
            text@ == self.segment(),
    {
        match self {
            Endpoint::TopHeadlines => String::from_str("top-headlines"),
        }
    }
}

impl Country {
    /// The code by which the API knows this country.
    pub open spec fn code(self) -> Seq<char> {
        match self {
            Country::Us => "us"@,
        }
    }

    /// The code by which the API knows this country, as text.
    pub fn to_string(&self) -> (text: String)
        ensures
            text@ == self.code(),
    {
        match self {
            Country::Us => String::from_str("us"),
        }
    }
}

} // verus!
