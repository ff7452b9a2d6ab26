//! The pure parts of the execution orchestrator: deciding whether a call is
//! made, assembling the one request descriptor for it, and the terminal
//! writes a transport round-trip leads to. The single network call itself is
//! the caller's suspension point and stays outside this library.

use vstd::prelude::*;

use crate::contract::ConnectorIntegration;
use crate::types::ConnectorError;
use crate::types::Connectors;
use crate::types::ErrorResponse;
use crate::types::Request;
use crate::types::RouterData;
use crate::types::TransportFault;
use crate::types::headers_view;

verus! {

/// Whether this execution should reach the network at all; a replay asks for
/// no call and returns the attempt unchanged.
#[derive(Clone, Copy, Debug, PartialEq, Eq, Structural)]
pub enum CallConnectorAction {
    Trigger,
    Avoid,
}

/// The orchestrator's construction outcome: nothing to send, or the one
/// request descriptor of this attempt.
#[derive(Clone, Debug)]
pub enum PreparedCall {
    NoCall,
    Call(Request),
}

/// What one execution can fail with: a construction or normalization error
/// local to the attempt, or a transport-level fault, kept distinct so an
/// external retry policy can tell "should retry" apart from "connector
/// declined".
#[derive(Clone, Debug)]
pub enum ExecutionError {
    Construction(ConnectorError),
    Transport(TransportFault),
}

/// The construction steps of one execution: nothing when the caller asked for
/// a replay; otherwise the connector's one request descriptor. A connector
/// that does not support the flow surfaces as `NotImplemented`; any
/// construction failure aborts with no attempt mutation.
pub fn prepare_call<F, Req, Resp, C: ConnectorIntegration<F, Req, Resp>>(
    connector: &C,
    req: &RouterData<F, Req, Resp>,
    connectors: &Connectors,
    action: CallConnectorAction,
) -> (r: Result<PreparedCall, ConnectorError>)
    ensures
        action is Avoid ==> (r matches Ok(p) && p is NoCall),
        action is Trigger ==> match r {
            Ok(p) => p matches PreparedCall::Call(request) && {
                &&& connector.supports_flow()
                &&& request.method == connector.spec_method()
                &&& connector.url_ok(req, connectors, request.url@)
                &&& connector.headers_ok(req, connectors, headers_view(request.headers@))
                &&& connector.body_ok(req, request.body)
            },
            Err(e) => (!connector.supports_flow() && (e matches ConnectorError::NotImplemented(m)
                && m@ == "flow not supported by connector"@)) || connector.url_err(
                req,
                connectors,
                e,
            ) || connector.headers_err(req, connectors, e) || connector.body_err(req, e),
        },
{
    match action {
        CallConnectorAction::Avoid => Ok(PreparedCall::NoCall),
        CallConnectorAction::Trigger => match connector.build_request(req, connectors) {
            Ok(Some(request)) => Ok(PreparedCall::Call(request)),
            Ok(None) => Err(ConnectorError::NotImplemented(String::from_str(
                "flow not supported by connector",
            ))),
            Err(e) => Err(e),
        },
    }
}

/// Whether an HTTP status marks a successful round-trip, routing the body to
/// the connector's response handler rather than its error normalizer.
pub fn is_success_status(status_code: u16) -> (r: bool)
    ensures
        r == (200 <= status_code < 300),
{
    200 <= status_code && status_code < 300
}

/// The terminal write for a connector-reported failure: the response slot is
/// set to the canonical error, and the status is left alone — the
/// orchestrator never invents a failure status.
pub fn apply_error_response<F, Req, Resp>(
    data: RouterData<F, Req, Resp>,
    error: ErrorResponse,
) -> (r: RouterData<F, Req, Resp>)
    ensures
        r.response matches Some(Err(e)) && e == error,
        r.status == data.status,
        r.flow == data.flow,
        r.payment_id == data.payment_id,
        r.request == data.request,
        r.connector_auth_type == data.connector_auth_type,
        r.session_token == data.session_token,
        r.reference_id == data.reference_id,
        r.connector_metadata == data.connector_metadata,
{
    RouterData { response: Some(Err(error)), ..data }
}

} // verus!
