//! The headers of an outgoing call.

use vstd::prelude::*;
use vstd::string::*;

verus! {

/// One header of a request.
#[derive(Debug, PartialEq, Eq)]
pub struct Header {
    pub name: String,
    pub value: String,
}

pub struct HeaderView {
    pub name: Seq<char>,
    pub value: Seq<char>,
}

impl View for Header {
    type V = HeaderView;

    open spec fn view(&self) -> HeaderView {
        HeaderView { name: self.name@, value: self.value@ }
    }
}

impl Header {
    pub fn new(name: &str, value: String) -> (header: Self)
        ensures
            header@ == (HeaderView { name: name@, value: value@ }),
    {
        Header { name: String::from_str(name), value }
    }
}

/// The views of a list of headers, in order.
pub open spec fn header_views(headers: Seq<Header>) -> Seq<HeaderView> {
    Seq::new(headers.len(), |i: int| headers[i]@)
}

/// The header that announces a JSON body.
pub open spec fn json_content_type() -> HeaderView {
    HeaderView { name: "Content-Type"@, value: "application/json"@ }
}

/// The header that carries the bearer token `token`.
pub open spec fn authorization(token: Seq<char>) -> HeaderView {
    HeaderView { name: "Authorization"@, value: token }
}

} // verus!
