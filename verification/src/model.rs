//! Captured HTTP flows, as the store and the daemon hand them over.

use vstd::prelude::*;

verus! {

/// One row of the list of flows.
#[derive(Debug, PartialEq)]
pub struct FlowSummary {
    pub id: i64,
    pub method: String,
    pub scheme: String,
    pub host: String,
    pub path: String,
    /// The status of the response; none while it is awaited.
    pub status: Option<u16>,
    pub mime: Option<String>,
    pub resp_size: Option<i64>,
    pub duration_ms: Option<i64>,
}

/// The request of a flow.
#[derive(Debug, PartialEq)]
pub struct FlowRequest {
    pub method: String,
    pub url: String,
    pub http_version: String,
    pub headers: Vec<(String, String)>,
    pub body: Vec<u8>,
}

/// The response of a flow.
#[derive(Debug, PartialEq)]
pub struct FlowResponse {
    pub status: u16,
    pub headers: Vec<(String, String)>,
    pub body: Vec<u8>,
}

/// A flow in full. It has no response while that is awaited.
#[derive(Debug, PartialEq)]
pub struct Flow {
    pub id: i64,
    pub request: FlowRequest,
    pub response: Option<FlowResponse>,
}

/// Which flows the store is asked to list.
#[derive(Debug, PartialEq)]
pub struct FlowQuery {
    /// What method, host or path must contain.
    pub search: Option<String>,
    pub host: Option<String>,
    pub limit: i64,
    pub offset: i64,
}

/// The content of a query.
pub struct FlowQueryView {
    pub search: Option<Seq<char>>,
    pub host: Option<Seq<char>>,
    pub limit: i64,
    pub offset: i64,
}

/// The content of an optional text.
pub open spec fn text_of(s: Option<String>) -> Option<Seq<char>> {
    match s {
        Some(s) => Some(s@),
        None => None,
    }
}

impl View for FlowQuery {
    type V = FlowQueryView;

    open spec fn view(&self) -> FlowQueryView {
        FlowQueryView {
            search: text_of(self.search),
            host: text_of(self.host),
            limit: self.limit,
            offset: self.offset,
        }
    }
}

impl FlowSummary {
    /// The address that was asked for: scheme, host and path.
    pub open spec fn url_text(self) -> Seq<char> {
        self.scheme@ + "://"@ + self.host@ + self.path@
    }

    /// Writes the address that was asked for.
    pub fn url(&self) -> (r: String)
        ensures
            r@ == self.url_text(),
    {
        let mut r = self.scheme.clone();
        r.append("://");
        r.append(self.host.as_str());
        r.append(self.path.as_str());
        r
    }
}

} // verus!
