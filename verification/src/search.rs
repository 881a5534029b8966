//! The knowledge search: the call that is made for a query and the text
//! that its answer becomes.

use crate::config::{bearer, DeepSeekConfig};
use crate::http::{authorization, header_views, json_content_type, Header, HeaderView};
use crate::text::{decimal, decimal_text, joined};
use vstd::prelude::*;
use vstd::string::*;

verus! {

/// How many results a search asks for.
pub const SEARCH_RESULT_COUNT: u32 = 10;

/// The body of a search call.
#[derive(Debug, PartialEq, Eq)]
pub struct SearchRequest {
    pub query: String,
    pub freshness: String,
    pub count: u32,
    pub answer: bool,
    pub stream: bool,
}

pub struct SearchRequestView {
    pub query: Seq<char>,
    pub freshness: Seq<char>,
    pub count: u32,
    pub answer: bool,
    pub stream: bool,
}

impl View for SearchRequest {
    type V = SearchRequestView;

    open spec fn view(&self) -> SearchRequestView {
        SearchRequestView {
            query: self.query@,
            freshness: self.freshness@,
            count: self.count,
            answer: self.answer,
            stream: self.stream,
        }
    }
}

/// The body that asks for `query`: a fixed number of results of any age,
/// without a generated answer and without streaming.
pub open spec fn search_request_for(query: Seq<char>) -> SearchRequestView {
    SearchRequestView {
        query,
        freshness: "noLimit"@,
        count: SEARCH_RESULT_COUNT,
        answer: false,
        stream: false,
    }
}

/// A search call, ready to be sent.
#[derive(Debug, PartialEq, Eq)]
pub struct SearchCall {
    pub url: String,
    pub headers: Vec<Header>,
    pub body: SearchRequest,
}

pub struct SearchCallView {
    pub url: Seq<char>,
    pub headers: Seq<HeaderView>,
    pub body: SearchRequestView,
}

impl View for SearchCall {
    type V = SearchCallView;

    open spec fn view(&self) -> SearchCallView {
        SearchCallView {
            url: self.url@,
            headers: header_views(self.headers@),
            body: self.body@,
        }
    }
}

/// The headers of a search call made with `key`.
pub open spec fn search_headers(key: Seq<char>) -> Seq<HeaderView> {
    seq![
        json_content_type(),
        HeaderView { name: "Accept"@, value: "*/*"@ },
        HeaderView { name: "Connection"@, value: "keep-alive"@ },
        authorization(bearer(key)),
    ]
}

/// One result of a search.
#[derive(Debug, PartialEq, Eq)]
pub struct SearchResponseMessage {
    pub url: String,
    pub title: String,
    pub content: String,
    pub icon: String,
}

pub struct SearchResponseMessageView {
    pub url: Seq<char>,
    pub title: Seq<char>,
    pub content: Seq<char>,
    pub icon: Seq<char>,
}

impl View for SearchResponseMessage {
    type V = SearchResponseMessageView;

    open spec fn view(&self) -> SearchResponseMessageView {
        SearchResponseMessageView {
            url: self.url@,
            title: self.title@,
            content: self.content@,
            icon: self.icon@,
        }
    }
}

/// The answer of the search service: ranked results and a summary.
#[derive(Debug, PartialEq, Eq)]
pub struct SearchResponse {
    pub messages: Vec<SearchResponseMessage>,
    pub summary: String,
}

pub struct SearchResponseView {
    pub messages: Seq<SearchResponseMessageView>,
    pub summary: Seq<char>,
}

impl View for SearchResponse {
    type V = SearchResponseView;

    open spec fn view(&self) -> SearchResponseView {
        SearchResponseView {
            messages: Seq::new(self.messages@.len(), |i: int| self.messages@[i]@),
            summary: self.summary@,
        }
    }
}

/// Why a search gave no results. The two reasons in words are the
/// accounts that the decoder and the transport give of their failure.
#[derive(Debug, PartialEq, Eq)]
pub enum SearchError {
    /// The service answered with a status outside the successful range.
    Status(u16),
    /// The body of the answer was not a search response.
    Decode(String),
    /// The call could not be sent, or its answer could not be read.
    Transport(String),
}

pub enum SearchErrorView {
    Status(u16),
    Decode(Seq<char>),
    Transport(Seq<char>),
}

impl View for SearchError {
    type V = SearchErrorView;

    open spec fn view(&self) -> SearchErrorView {
        match self {
            SearchError::Status(code) => SearchErrorView::Status(*code),
            SearchError::Decode(reason) => SearchErrorView::Decode(reason@),
            SearchError::Transport(reason) => SearchErrorView::Transport(reason@),
        }
    }
}

/// The message of a refused search: the status in base ten behind a fixed
/// opening.
pub open spec fn status_message(code: u16) -> Seq<char> {
    "搜索请求失败: "@ + decimal(code as nat)
}

/// How an error reads in a diagnostic: a refused search as its message in
/// double quotes, the others as the account they carry.
pub open spec fn error_text(error: SearchErrorView) -> Seq<char> {
    match error {
        SearchErrorView::Status(code) => "\""@ + status_message(code) + "\""@,
        SearchErrorView::Decode(reason) => reason,
        SearchErrorView::Transport(reason) => reason,
    }
}

impl SearchError {
    /// The error as it reads in a diagnostic.
    pub fn debug_text(&self) -> (text: String)
        ensures
            text@ == error_text(self@),
    {
        match self {
            SearchError::Status(code) => {
                let digits = decimal_text(*code as u64);
                String::from_str("\"").concat("搜索请求失败: ").concat(digits.as_str()).concat(
                    "\"",
                )
            },
            SearchError::Decode(reason) => reason.clone(),
            SearchError::Transport(reason) => reason.clone(),
        }
    }
}

/// The block of text that one result becomes: title, content and source,
/// each on a line of its own.
pub open spec fn result_block(result: SearchResponseMessageView) -> Seq<char> {
    "标题: "@ + result.title + "\n内容: "@ + result.content + "\n来源: "@ + result.url + "\n"@
}

/// The blocks of the first `n` results.
pub open spec fn result_blocks(results: Seq<SearchResponseMessageView>, n: int) -> Seq<Seq<char>> {
    Seq::new(n as nat, |i: int| result_block(results[i]))
}

/// The text that a search response becomes: a header line, then the blocks
/// of the results in their order, with a delimiter between each two.
pub open spec fn formatted_results(response: SearchResponseView) -> Seq<char> {
    "搜索结果:\n"@ + joined(
        result_blocks(response.messages, response.messages.len() as int),
        "\n---\n"@,
    )
}

/// Renders one result.
pub fn format_result(result: &SearchResponseMessage) -> (block: String)
    ensures
        block@ == result_block(result@),
{
    String::from_str("标题: ").concat(result.title.as_str()).concat("\n内容: ").concat(
        result.content.as_str(),
    ).concat("\n来源: ").concat(result.url.as_str()).concat("\n")
}

/// Renders a search response as one text.
pub fn format_results(response: &SearchResponse) -> (text: String)
    ensures
        text@ == formatted_results(response@),
{
    let ghost results = response@.messages;
    let mut body = String::new();
    let mut i: usize = 0;
    while i < response.messages.len()
        invariant
            i <= response.messages.len(),
            results == response@.messages,
            body@ == joined(result_blocks(results, i as int), "\n---\n"@),
        decreases response.messages.len() - i,
    {
        let block = format_result(&response.messages[i]);
        proof {
            let before = result_blocks(results, i as int);
            let now = result_blocks(results, i + 1);
            assert(now.drop_last() =~= before);
        }
        if i > 0 {
            body.append("\n---\n");
        }
        body.append(block.as_str());
        i += 1;
    }
    String::from_str("搜索结果:\n").concat(body.as_str())
}

/// The knowledge search tool.
#[derive(Debug, PartialEq, Eq)]
pub struct KnowledgeBaseSearcher {
    pub config: DeepSeekConfig,
}

impl KnowledgeBaseSearcher {
    /// The call that searches for `query`: a POST of the fixed body to the
    /// search address, with this searcher's key as bearer token.
    pub open spec fn call_for(&self, query: Seq<char>) -> SearchCallView {
        SearchCallView {
            url: self.config@.search_url,
            headers: search_headers(self.config@.search_api_key),
            body: search_request_for(query),
        }
    }

    pub fn new(config: DeepSeekConfig) -> (searcher: Self)
        ensures
            searcher.config == config,
    {
        KnowledgeBaseSearcher { config }
    }

    /// Prepares the call that searches for `query`.
    pub fn request(&self, query: String) -> (call: SearchCall)
        ensures
            call@ == self.call_for(query@),
    {
        let mut headers: Vec<Header> = Vec::new();
        headers.push(Header::new("Content-Type", String::from_str("application/json")));
        headers.push(Header::new("Accept", String::from_str("*/*")));
        headers.push(Header::new("Connection", String::from_str("keep-alive")));
        headers.push(Header::new("Authorization", self.config.search_authorization()));
        assert(header_views(headers@) =~= search_headers(self.config@.search_api_key));
        SearchCall {
            url: self.config.search_url.clone(),
            headers,
            body: SearchRequest {
                query,
                freshness: String::from_str("noLimit"),
                count: SEARCH_RESULT_COUNT,
                answer: false,
                stream: false,
            },
        }
    }

    /// What a search yields once its call has been answered: the rendered
    /// results, or the error unchanged.
    pub fn search(answer: Result<SearchResponse, SearchError>) -> (found: Result<
        String,
        SearchError,
    >)
        ensures
            match answer {
                Ok(response) => found is Ok && found->Ok_0@ == formatted_results(response@),
                Err(error) => found is Err && found->Err_0@ == error@,
            },
    {
        match answer {
            Ok(response) => Ok(format_results(&response)),
            Err(error) => Err(error),
        }
    }
}

} // verus!
