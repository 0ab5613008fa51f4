//! What both services tell their HTTP layer: the path they answer under, how
//! long a preflight answer may be cached, and the page that a plain `GET`
//! is answered with, an interactive query explorer that posts its queries
//! back to the same path.

use vstd::prelude::*;

verus! {

/// The path under which a service answers, for queries and for the explorer.
pub const ENDPOINT: &'static str = "/";

/// For how many seconds a browser may cache the answer to a cross-origin
/// preflight request.
pub const CORS_MAX_AGE: usize = 3600;

/// A response as the transport needs it: status code, content type and body.
#[derive(Debug, Clone, PartialEq, Eq)]
pub struct Page {
    pub status: u16,
    pub content_type: String,
    pub body: String,
}

/// What a [`Page`] stands for in contracts.
pub struct PageView {
    pub status: int,
    pub content_type: Seq<char>,
    pub body: Seq<char>,
}

impl View for Page {
    type V = PageView;

    open spec fn view(&self) -> PageView {
        PageView {
            status: self.status as int,
            content_type: self.content_type@,
            body: self.body@,
        }
    }
}

/// The markup of the explorer page that `async_graphql` generates for a
/// configuration with the query endpoint `endpoint` and the subscription
/// endpoint `subscription_endpoint`, and with nothing else set.
pub uninterp spec fn playground_markup(
    endpoint: Seq<char>,
    subscription_endpoint: Seq<char>,
) -> Seq<char>;

/// A successful HTML response with the body `body`.
pub open spec fn html_view(body: Seq<char>) -> PageView {
    PageView { status: 200, content_type: "text/html; charset=utf-8"@, body }
}

/// Trusted: calls `async_graphql::http::playground_source` on a configuration
/// made by `GraphQLPlaygroundConfig::new(endpoint)` and
/// `subscription_endpoint(subscription_endpoint)`. The function fills a fixed
/// template from the configuration, so its result is a function of the two
/// endpoints alone; the contract gives it the name `playground_markup` and
/// says nothing else of it.
#[verifier::external_body]
fn explorer_markup(endpoint: &str, subscription_endpoint: &str) -> (markup: String)
    ensures
        markup@ == playground_markup(endpoint@, subscription_endpoint@),
{
    async_graphql::http::playground_source(
        async_graphql::http::GraphQLPlaygroundConfig::new(endpoint).subscription_endpoint(
            subscription_endpoint,
        ),
    )
}

impl Page {
    /// A successful response that carries `body` as HTML in UTF-8.
    pub fn html(body: String) -> (page: Page)
        ensures
            page@ == html_view(body@),
    {
        Page { status: 200, content_type: "text/html; charset=utf-8".to_string(), body }
    }
}

/// The explorer page, with `/` as the endpoint for queries and for
/// subscriptions alike.
pub fn index_playground() -> (page: Page)
    ensures
        page@ == html_view(playground_markup("/"@, "/"@)),
{
    Page::html(explorer_markup(ENDPOINT, ENDPOINT))
}

} // verus!
