//! The per-(connector, flow) integration contract: the operation set every
//! connector implements for each flow it supports, with its behaviour pinned
//! by per-implementation spec functions.

use vstd::prelude::*;

use crate::types::ConnectorError;
use crate::types::Connectors;
use crate::types::Method;
use crate::types::Request;
use crate::types::RequestContent;
use crate::types::RouterData;
use crate::types::headers_view;

verus! {

/// One connector's integration for one flow, over that flow's request and
/// response shapes. Each implementation defines, as spec functions, exactly
/// which URL, headers and body it constructs (or which error it reports), and
/// the executable operations are verified against them.
pub trait ConnectorIntegration<F, Req, Resp> where Self: Sized {
    /// Whether the connector supports this flow at all; `build_request`
    /// returns `None` exactly when it does not — a legitimate, non-fatal
    /// result.
    spec fn supports_flow(&self) -> bool;

    /// The HTTP method of this flow's call.
    spec fn spec_method(&self) -> Method;

    /// The MIME type of this flow's request body.
    spec fn spec_content_type(&self) -> Seq<char>;

    /// When `get_url` succeeds, which endpoint it returns.
    spec fn url_ok(&self, req: &RouterData<F, Req, Resp>, connectors: &Connectors, url: Seq<char>) -> bool;

    /// When `get_url` fails, which error it reports.
    spec fn url_err(&self, req: &RouterData<F, Req, Resp>, connectors: &Connectors, e: ConnectorError) -> bool;

    /// When `get_headers` succeeds, which header list it returns.
    spec fn headers_ok(&self, req: &RouterData<F, Req, Resp>, connectors: &Connectors, h: Seq<(Seq<char>, Seq<char>)>) -> bool;

    /// When `get_headers` fails, which error it reports.
    spec fn headers_err(&self, req: &RouterData<F, Req, Resp>, connectors: &Connectors, e: ConnectorError) -> bool;

    /// When `get_request_body` succeeds, which payload (if any) it builds.
    spec fn body_ok(&self, req: &RouterData<F, Req, Resp>, body: Option<RequestContent>) -> bool;

    /// When `get_request_body` fails, which error it reports.
    spec fn body_err(&self, req: &RouterData<F, Req, Resp>, e: ConnectorError) -> bool;

    /// The MIME type this flow's calls are sent with.
    fn get_content_type(&self) -> (r: String)
        ensures
            r@ == self.spec_content_type(),
    ;

    /// The endpoint of this flow's call, or the construction error.
    fn get_url(&self, req: &RouterData<F, Req, Resp>, connectors: &Connectors) -> (r: Result<
        String,
        ConnectorError,
    >)
        ensures
            match r {
                Ok(u) => self.url_ok(req, connectors, u@),
                Err(e) => self.url_err(req, connectors, e),
            },
    ;

    /// The headers of this flow's call, or the construction error.
    fn get_headers(&self, req: &RouterData<F, Req, Resp>, connectors: &Connectors) -> (r: Result<
        Vec<(String, String)>,
        ConnectorError,
    >)
        ensures
            match r {
                Ok(h) => self.headers_ok(req, connectors, headers_view(h@)),
                Err(e) => self.headers_err(req, connectors, e),
            },
    ;

    /// The typed body of this flow's call (absent for read-only calls), or
    /// the construction error.
    fn get_request_body(&self, req: &RouterData<F, Req, Resp>) -> (r: Result<
        Option<RequestContent>,
        ConnectorError,
    >)
        ensures
            match r {
                Ok(b) => self.body_ok(req, b),
                Err(e) => self.body_err(req, e),
            },
    ;

    /// One fully specified, transport-agnostic request descriptor; `None`
    /// means the connector does not support this flow; an error is one of the
    /// construction errors, which abort with no attempt mutation.
    fn build_request(&self, req: &RouterData<F, Req, Resp>, connectors: &Connectors) -> (r: Result<
        Option<Request>,
        ConnectorError,
    >)
        ensures
            match r {
                Ok(Some(request)) => self.supports_flow() && request.method == self.spec_method()
                    && self.url_ok(req, connectors, request.url@) && self.headers_ok(
                    req,
                    connectors,
                    headers_view(request.headers@),
                ) && self.body_ok(req, request.body),
                Ok(None) => !self.supports_flow(),
                Err(e) => self.url_err(req, connectors, e) || self.headers_err(req, connectors, e)
                    || self.body_err(req, e),
            },
    ;
}

} // verus!
