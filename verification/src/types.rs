//! Canonical per-attempt data model: status enumerations, error and redirect
//! structures, credentials, and the generic attempt record that every flow
//! runs through.

use vstd::prelude::*;

verus! {

/// Canonical payment lifecycle states. Transitions are produced only by a
/// connector's status normalizer from a connector response plus the attempt's
/// pre-call status; no other component writes the status.
#[derive(Clone, Copy, Debug, PartialEq, Eq, Structural)]
pub enum AttemptStatus {
    PaymentMethodAwaited,
    Pending,
    AuthenticationPending,
    DeviceDataCollectionPending,
    AuthenticationFailed,
    Authorized,
    Charged,
    Failure,
    Voided,
}

/// Canonical refund lifecycle states.
#[derive(Clone, Copy, Debug, PartialEq, Eq, Structural)]
pub enum RefundStatus {
    Success,
    Failure,
    Pending,
}

/// Connector-agnostic error body handed back to the caller when a connector
/// declines or rejects a call.
#[derive(Clone, Debug, PartialEq, Eq)]
pub struct ErrorResponse {
    pub status_code: u16,
    pub code: String,
    pub message: String,
    pub reason: Option<String>,
}

/// HTTP method of an outbound connector call.
#[derive(Clone, Copy, Debug, PartialEq, Eq, Structural)]
pub enum Method {
    Get,
    Post,
}

/// A challenge handed to the payer's browser: where to send the payer, how,
/// and with which form fields. Renderers expect a stable field set per
/// connector, so fields a connector omitted are present with empty values.
#[derive(Clone, Debug, PartialEq, Eq)]
pub struct RedirectForm {
    pub endpoint: String,
    pub method: Method,
    pub form_fields: Vec<(String, String)>,
}

/// Credential schemes a connector account can be configured with. Immutable
/// for an attempt's duration.
#[derive(Clone, Debug, PartialEq, Eq)]
pub enum ConnectorAuthType {
    HeaderKey { api_key: String },
    BodyKey { api_key: String, key1: String },
    SignatureKey { api_key: String, key1: String, api_secret: String },
}

impl ConnectorAuthType {
    /// A copy of the credentials that provably holds the same values.
    pub fn clone_auth(&self) -> (r: Self)
        ensures
            r == *self,
    {
        match self {
            ConnectorAuthType::HeaderKey { api_key } => ConnectorAuthType::HeaderKey {
                api_key: api_key.clone(),
            },
            ConnectorAuthType::BodyKey { api_key, key1 } => ConnectorAuthType::BodyKey {
                api_key: api_key.clone(),
                key1: key1.clone(),
            },
            ConnectorAuthType::SignatureKey { api_key, key1, api_secret } => {
                ConnectorAuthType::SignatureKey {
                    api_key: api_key.clone(),
                    key1: key1.clone(),
                    api_secret: api_secret.clone(),
                }
            },
        }
    }
}

/// Errors local to building or interpreting one connector call. None of these
/// is retried at this layer.
#[derive(Clone, Debug, PartialEq, Eq)]
pub enum ConnectorError {
    /// The connector has no endpoint or no implementation for this flow.
    NotImplemented(String),
    /// A required upstream transaction id is absent from the attempt.
    MissingConnectorTransactionID,
    RequestEncodingFailed,
    ResponseDeserializationFailed,
    ResponseHandlingFailed,
    FailedToObtainAuthType,
    /// A field the flow depends on is absent from the attempt.
    MissingRequiredField(String),
    /// The connector has no webhook support; callers fall back to polling.
    WebhooksNotImplemented,
    /// Minor-unit to base-unit conversion failed (unsupported amount).
    AmountConversionFailed,
}

/// A transport-level fault, distinct from a connector-reported error so an
/// external retry policy can tell "should retry" apart from "declined".
#[derive(Clone, Copy, Debug, PartialEq, Eq, Structural)]
pub enum TransportFault {
    Timeout,
    ConnectionFailure,
    MalformedResponse,
}

/// Reference to the connector-side transaction an attempt concerns.
#[derive(Clone, Debug, PartialEq, Eq)]
pub enum ResponseId {
    ConnectorTransactionId(String),
    NoResponseId,
}

impl ResponseId {
    /// The connector transaction id, or the canonical error when none was
    /// recorded on the attempt.
    pub fn get_connector_transaction_id(&self) -> (r: Result<String, ConnectorError>)
        ensures
            match r {
                Ok(id) => self matches ResponseId::ConnectorTransactionId(t) && id@ == t@,
                Err(e) => self is NoResponseId && e == ConnectorError::MissingConnectorTransactionID,
            },
    {
        match self {
            ResponseId::ConnectorTransactionId(id) => Ok(id.clone()),
            ResponseId::NoResponseId => Err(ConnectorError::MissingConnectorTransactionID),
        }
    }
}

/// How a card (or other instrument) was presented for an attempt.
#[derive(Clone, Debug, PartialEq, Eq)]
pub enum PaymentMethodData {
    Card(Card),
    BankTransfer,
}

/// Raw card details as supplied by the caller.
#[derive(Clone, Debug, PartialEq, Eq)]
pub struct Card {
    pub card_number: String,
    pub card_exp_month: String,
    pub card_exp_year: String,
    pub card_cvc: String,
}

/// Whether the connector should capture immediately after authorization.
#[derive(Clone, Copy, Debug, PartialEq, Eq, Structural)]
pub enum CaptureMethod {
    Automatic,
    Manual,
}

// Flow markers. The flow type parameter of an attempt record statically pins
// which request/response shapes are legal together, so cross-flow data cannot
// compile into the wrong operation.

/// Authorize a payment.
#[derive(Clone, Copy, Debug)]
pub struct Authorize;

/// Create a payment intent before authorizing.
#[derive(Clone, Copy, Debug)]
pub struct InitPayment;

/// Complete a challenge-interrupted authorization.
#[derive(Clone, Copy, Debug)]
pub struct CompleteAuthorize;

/// Capture previously authorized funds.
#[derive(Clone, Copy, Debug)]
pub struct Capture;

/// Void an authorization.
#[derive(Clone, Copy, Debug)]
pub struct Void;

/// Poll a payment's state.
#[derive(Clone, Copy, Debug)]
pub struct PSync;

/// Execute a refund.
#[derive(Clone, Copy, Debug)]
pub struct Execute;

/// Poll a refund's state.
#[derive(Clone, Copy, Debug)]
pub struct RSync;

/// Turn an instrument into a connector-side token.
#[derive(Clone, Copy, Debug)]
pub struct Tokenize;

/// Obtain a session token before another flow can run.
#[derive(Clone, Copy, Debug)]
pub struct AuthorizeSessionToken;

/// Refresh an access token.
#[derive(Clone, Copy, Debug)]
pub struct AccessTokenAuth;

// Flow-specific request payloads.

/// Request payload for the authorize (and intent-creation) flows.
#[derive(Clone, Debug)]
pub struct PaymentsAuthorizeData {
    /// Amount in integer minor units.
    pub amount: i64,
    pub currency: crate::currency::Currency,
    pub payment_method_data: PaymentMethodData,
    pub capture_method: Option<CaptureMethod>,
    pub complete_authorize_url: Option<String>,
}

/// Request payload for the capture flow.
#[derive(Clone, Debug)]
pub struct PaymentsCaptureData {
    pub amount_to_capture: i64,
    pub currency: crate::currency::Currency,
    pub connector_transaction_id: String,
}

/// Request payload for the void flow.
#[derive(Clone, Debug)]
pub struct PaymentsCancelData {
    pub cancellation_reason: Option<String>,
    pub connector_transaction_id: String,
}

/// Request payload for the payment-sync flow.
#[derive(Clone, Debug)]
pub struct PaymentsSyncData {
    pub connector_transaction_id: ResponseId,
}

/// Request payload for completing a challenge-interrupted authorization.
#[derive(Clone, Debug)]
pub struct CompleteAuthorizeData {
    /// Opaque payload the authentication provider handed back, if any.
    pub payload: Option<String>,
}

/// Request payload for the refund flows.
#[derive(Clone, Debug)]
pub struct RefundsData {
    pub refund_amount: i64,
    pub currency: crate::currency::Currency,
    pub reason: Option<String>,
    pub connector_transaction_id: String,
}

/// Request payload for the tokenization flow.
#[derive(Clone, Debug)]
pub struct PaymentMethodTokenizationData {
    pub payment_method_data: PaymentMethodData,
}

/// Request payload for the session-token flow; the call carries only the
/// merchant's credentials.
#[derive(Clone, Copy, Debug)]
pub struct AuthorizeSessionTokenData;

// Flow-specific response payloads.

/// Success payload of the payment flows.
#[derive(Clone, Debug)]
pub enum PaymentsResponseData {
    TransactionResponse {
        resource_id: ResponseId,
        redirection_data: Option<RedirectForm>,
        mandate_reference: Option<String>,
        connector_metadata: Option<String>,
    },
    SessionTokenResponse { session_token: String },
    TokenizationResponse { token: String },
}

/// Success payload of the refund flows.
#[derive(Clone, Debug)]
pub struct RefundsResponseData {
    pub connector_refund_id: String,
    pub refund_status: RefundStatus,
}

/// An access token a connector handed out, with its remaining lifetime in
/// seconds.
#[derive(Clone, Debug)]
pub struct AccessToken {
    pub token: String,
    pub expires: i64,
}

/// The attempt record: the canonical envelope one logical operation flows
/// through. The response slot stays unset until exactly one terminal write by
/// the orchestrator or a normalizer.
#[derive(Clone, Debug)]
pub struct RouterData<F, Req, Resp> {
    pub flow: F,
    /// Merchant-level payment or refund identifier.
    pub payment_id: String,
    pub status: AttemptStatus,
    pub request: Req,
    pub response: Option<Result<Resp, ErrorResponse>>,
    pub connector_auth_type: ConnectorAuthType,
    pub session_token: Option<String>,
    pub reference_id: Option<String>,
    pub connector_metadata: Option<String>,
}

pub type PaymentsAuthorizeRouterData = RouterData<Authorize, PaymentsAuthorizeData, PaymentsResponseData>;

pub type PaymentsInitRouterData = RouterData<InitPayment, PaymentsAuthorizeData, PaymentsResponseData>;

pub type PaymentsCompleteAuthorizeRouterData = RouterData<CompleteAuthorize, CompleteAuthorizeData, PaymentsResponseData>;

pub type PaymentsCaptureRouterData = RouterData<Capture, PaymentsCaptureData, PaymentsResponseData>;

pub type PaymentsCancelRouterData = RouterData<Void, PaymentsCancelData, PaymentsResponseData>;

pub type PaymentsSyncRouterData = RouterData<PSync, PaymentsSyncData, PaymentsResponseData>;

pub type RefundsRouterData<F> = RouterData<F, RefundsData, RefundsResponseData>;

pub type RefundSyncRouterData = RefundsRouterData<RSync>;

pub type TokenizationRouterData = RouterData<Tokenize, PaymentMethodTokenizationData, PaymentsResponseData>;

pub type PaymentsAuthorizeSessionTokenRouterData = RouterData<AuthorizeSessionToken, AuthorizeSessionTokenData, PaymentsResponseData>;

/// The typed body of an outbound connector call, before serialization at the
/// transport boundary.
#[derive(Clone, Debug)]
pub enum RequestContent {
    OpayoSession(crate::opayo::OpayoSessionRequest),
    OpayoCardIdentifier(crate::opayo::OpayoCardIdentifierRequest),
    OpayoPayments(crate::opayo::OpayoPaymentsRequest),
    OpayoRefund(crate::opayo::OpayoRefundRequest),
}

/// One fully specified, transport-agnostic request descriptor.
#[derive(Clone, Debug)]
pub struct Request {
    pub method: Method,
    pub url: String,
    pub headers: Vec<(String, String)>,
    pub body: Option<RequestContent>,
}

/// A raw transport round-trip result: HTTP status and body bytes.
#[derive(Clone, Debug)]
pub struct Response {
    pub status_code: u16,
    pub body: Vec<u8>,
}

/// Per-connector configuration: where each connector's API lives.
#[derive(Clone, Debug)]
pub struct ConnectorParams {
    pub base_url: String,
}

/// The switch's connector configuration, read-only for an attempt's
/// lifetime.
#[derive(Clone, Debug)]
pub struct Connectors {
    pub airwallex: ConnectorParams,
    pub opayo: ConnectorParams,
}

/// An incoming webhook call, as the boundary hands it over.
#[derive(Clone, Debug)]
pub struct IncomingWebhookRequestDetails {
    pub body: Vec<u8>,
}

/// Which payment or refund a webhook event concerns.
#[derive(Clone, Debug)]
pub enum ObjectReferenceId {
    PaymentId(String),
    RefundId(String),
}

/// Canonical classification of a webhook event.
#[derive(Clone, Copy, Debug, PartialEq, Eq, Structural)]
pub enum IncomingWebhookEvent {
    PaymentIntentSuccess,
    PaymentIntentFailure,
    RefundSuccess,
    RefundFailure,
    EventNotSupported,
}

/// Whether two optional strings hold the same text (or are both absent).
pub open spec fn opt_string_view_eq(a: Option<String>, b: Option<String>) -> bool {
    match (a, b) {
        (Some(x), Some(y)) => x@ == y@,
        (None, None) => true,
        _ => false,
    }
}

/// The text of an optional field, empty when it is absent.
pub open spec fn field_or_empty(o: Option<String>) -> Seq<char> {
    match o {
        Some(s) => s@,
        None => Seq::empty(),
    }
}

/// The view of a header list as a sequence of (name, value) character
/// sequences, for contracts.
pub open spec fn headers_view(h: Seq<(String, String)>) -> Seq<(Seq<char>, Seq<char>)> {
    h.map_values(|p: (String, String)| (p.0@, p.1@))
}

/// Relies on uuid::Uuid::new_v4 and its Display form: a fresh random
/// version-4 UUID rendered in the 36-character hyphenated form. The value is
/// random, so nothing beyond its shape is assumed.
#[verifier::external_body]
pub(crate) fn generate_request_id() -> (r: String)
    ensures
        r@.len() == 36,
{
    uuid::Uuid::new_v4().to_string()
}

} // verus!
