//! The body of an HTTP page fetched while enriching a batch of articles.
//! The transport itself lives outside the library; the pipeline receives
//! each page body as a plain value.

use vstd::prelude::*;

verus! {

/// The body of a successfully fetched HTTP page.
#[derive(Debug, Clone)]
pub struct HttpContent(String);

impl View for HttpContent {
    type V = Seq<char>;

    closed spec fn view(&self) -> Seq<char> {
        self.0@
    }
}

impl HttpContent {
    pub fn new(body: String) -> (r: HttpContent)
        ensures
            r@ == body@,
    {
        HttpContent(body)
    }

    pub fn into_string(self) -> (r: String)
        ensures
            r@ == self@,
    {
        self.0
    }
}

} // verus!
