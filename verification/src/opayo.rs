//! The Opayo connector: credential handling, per-flow request construction
//! under the integration contract, response normalization, the session-token
//! pretask, and its (absent) webhook support.

use vstd::prelude::*;

use vstd::utf8::encode_utf8;

use crate::contract::ConnectorIntegration;
use crate::currency::Currency;
use crate::types::AttemptStatus;
use crate::types::AuthorizeSessionToken;
use crate::types::AuthorizeSessionTokenData;
use crate::types::ConnectorAuthType;
use crate::types::ConnectorError;
use crate::types::Connectors;
use crate::types::ErrorResponse;
use crate::types::IncomingWebhookEvent;
use crate::types::IncomingWebhookRequestDetails;
use crate::types::Method;
use crate::types::ObjectReferenceId;
use crate::types::PaymentMethodData;
use crate::types::PaymentsAuthorizeData;
use crate::types::PaymentsAuthorizeRouterData;
use crate::types::PaymentsAuthorizeSessionTokenRouterData;
use crate::types::PaymentsCaptureData;
use crate::types::PaymentsCancelData;
use crate::types::PaymentsResponseData;
use crate::types::PaymentsSyncData;
use crate::types::RefundsData;
use crate::types::RefundsResponseData;
use crate::types::RefundsRouterData;
use crate::types::Request;
use crate::types::RequestContent;
use crate::types::ResponseId;
use crate::types::RouterData;
use crate::types::Tokenize;
use crate::types::TokenizationRouterData;
use crate::types::Authorize;
use crate::types::Capture;
use crate::types::Execute;
use crate::types::PSync;
use crate::types::PaymentMethodTokenizationData;
use crate::types::RSync;
use crate::types::Void;
use crate::types::field_or_empty;
use crate::types::generate_request_id;
use crate::types::headers_view;

verus! {

/// The Opayo connector.
#[derive(Clone, Copy, Debug)]
pub struct Opayo;

/// Opayo credentials: an API key and the vendor key, sent as HTTP basic auth.
#[derive(Clone, Debug)]
pub struct OpayoAuthType {
    pub api_key: String,
    pub key1: String,
}

impl OpayoAuthType {
    /// Extracts Opayo credentials from the canonical credential variants.
    pub fn try_from(auth_type: &ConnectorAuthType) -> (r: Result<Self, ConnectorError>)
        ensures
            match r {
                Ok(a) => auth_type matches ConnectorAuthType::BodyKey { api_key, key1 }
                    && a.api_key@ == api_key@ && a.key1@ == key1@,
                Err(e) => !(auth_type is BodyKey) && e == ConnectorError::FailedToObtainAuthType,
            },
    {
        match auth_type {
            ConnectorAuthType::BodyKey { api_key, key1 } => Ok(OpayoAuthType {
                api_key: api_key.clone(),
                key1: key1.clone(),
            }),
            _ => Err(ConnectorError::FailedToObtainAuthType),
        }
    }
}

/// What base64's standard-alphabet, padded encoding of the given bytes is.
pub uninterp spec fn base64_encode_std(bytes: Seq<u8>) -> Seq<char>;

/// Relies on base64's STANDARD engine (RFC 4648 alphabet, padded): the output
/// is a function of the input bytes alone, four characters for every three
/// bytes begun.
#[verifier::external_body]
fn base64_encode(input: &str) -> (r: String)
    requires
        encode_utf8(input@).len() <= usize::MAX as nat / 4,
    ensures
        r@ == base64_encode_std(encode_utf8(input@)),
        r@.len() == ((encode_utf8(input@).len() + 2) / 3) * 4,
{
    base64::Engine::encode(&base64::engine::general_purpose::STANDARD, input)
}

/// Whether the joined credentials are too long for the encoder's output to
/// be sized within the address space — the one machine limit on this header.
pub open spec fn auth_too_long(api_key: Seq<char>, key1: Seq<char>) -> bool {
    encode_utf8(api_key + ":"@ + key1).len() > usize::MAX as nat / 4
}

/// The basic-auth header pair Opayo expects: the API key and vendor key,
/// joined by a colon and base64-encoded.
pub open spec fn spec_opayo_auth_pair(api_key: Seq<char>, key1: Seq<char>) -> (Seq<char>, Seq<
    char,
>) {
    ("Authorization"@, "Basic "@ + base64_encode_std(encode_utf8(api_key + ":"@ + key1)))
}

/// The header list every credentialed Opayo call carries: basic auth, then
/// the JSON content type.
pub open spec fn spec_opayo_headers(api_key: Seq<char>, key1: Seq<char>) -> Seq<(Seq<char>, Seq<
    char,
>)> {
    seq![spec_opayo_auth_pair(api_key, key1), ("Content-Type"@, "application/json"@)]
}

/// The header list of the tokenization call: JSON content type, then the
/// session token as a bearer credential.
pub open spec fn spec_opayo_token_headers(session: Seq<char>) -> Seq<(Seq<char>, Seq<char>)> {
    seq![("Content-Type"@, "application/json"@), ("Authorization"@, "Bearer "@ + session)]
}

impl Opayo {
    /// The connector's registry name.
    pub fn id(&self) -> (r: &'static str)
        ensures
            r@ == "opayo"@,
    {
        "opayo"
    }

    /// The MIME type shared by every flow of this connector.
    pub fn common_get_content_type(&self) -> (r: &'static str)
        ensures
            r@ == "application/json"@,
    {
        "application/json"
    }

    /// Where this connector's API lives, from the read-only configuration.
    pub fn base_url<'a>(&self, connectors: &'a Connectors) -> (r: &'a str)
        ensures
            r@ == connectors.opayo.base_url@,
    {
        connectors.opayo.base_url.as_str()
    }

    /// The basic-auth header built from the attempt's credentials; fails
    /// exactly when the credentials are not of the scheme Opayo uses.
    pub fn get_auth_header(&self, auth_type: &ConnectorAuthType) -> (r: Result<
        Vec<(String, String)>,
        ConnectorError,
    >)
        ensures
            match r {
                Ok(h) => auth_type matches ConnectorAuthType::BodyKey { api_key, key1 }
                    && headers_view(h@) == seq![spec_opayo_auth_pair(api_key@, key1@)],
                Err(e) => match *auth_type {
                    ConnectorAuthType::BodyKey { api_key, key1 } => auth_too_long(api_key@, key1@)
                        && e == ConnectorError::RequestEncodingFailed,
                    _ => e == ConnectorError::FailedToObtainAuthType,
                },
            },
    {
        let auth = match OpayoAuthType::try_from(auth_type) {
            Ok(a) => a,
            Err(e) => {
                return Err(e);
            },
        };
        let joined = auth.api_key.concat(":").concat(auth.key1.as_str());
        proof {
            assert(joined@ =~= auth.api_key@ + ":"@ + auth.key1@);
        }
        let joined_bytes = joined.as_str().as_bytes();
        if joined_bytes.len() > usize::MAX / 4 {
            return Err(ConnectorError::RequestEncodingFailed);
        }
        let encoded = base64_encode(joined.as_str());
        let value = String::from_str("Basic ").concat(encoded.as_str());
        let mut h: Vec<(String, String)> = Vec::new();
        h.push((String::from_str("Authorization"), value));
        proof {
            match *auth_type {
                ConnectorAuthType::BodyKey { ref api_key, ref key1 } => {
                    assert(headers_view(h@) =~~= seq![spec_opayo_auth_pair(api_key@, key1@)]);
                },
                _ => {},
            }
        }
        Ok(h)
    }

    /// The full header list of a credentialed call: auth, then content type.
    pub fn build_headers<F, Req, Resp>(&self, req: &RouterData<F, Req, Resp>) -> (r: Result<
        Vec<(String, String)>,
        ConnectorError,
    >)
        ensures
            match r {
                Ok(h) => req.connector_auth_type matches ConnectorAuthType::BodyKey {
                    api_key,
                    key1,
                } && headers_view(h@) == spec_opayo_headers(api_key@, key1@),
                Err(e) => match req.connector_auth_type {
                    ConnectorAuthType::BodyKey { api_key, key1 } => auth_too_long(api_key@, key1@)
                        && e == ConnectorError::RequestEncodingFailed,
                    _ => e == ConnectorError::FailedToObtainAuthType,
                },
            },
    {
        let mut header = match self.get_auth_header(&req.connector_auth_type) {
            Ok(h) => h,
            Err(e) => {
                return Err(e);
            },
        };
        let ghost pre = header@;
        header.push((String::from_str("Content-Type"), String::from_str("application/json")));
        proof {
            match req.connector_auth_type {
                ConnectorAuthType::BodyKey { ref api_key, ref key1 } => {
                    assert(headers_view(pre) == seq![spec_opayo_auth_pair(api_key@, key1@)]);
                    assert(headers_view(pre)[0] == (pre[0].0@, pre[0].1@));
                    assert((pre[0].0@, pre[0].1@) == spec_opayo_auth_pair(api_key@, key1@));
                    assert(header@[0] == pre[0]);
                    assert(headers_view(header@)[0] == (header@[0].0@, header@[0].1@));
                    assert(headers_view(header@)[1] == (header@[1].0@, header@[1].1@));
                    assert(header@[1].0@ == "Content-Type"@);
                    assert(header@[1].1@ == "application/json"@);
                    assert(headers_view(header@) =~~= spec_opayo_headers(api_key@, key1@));
                },
                _ => {},
            }
        }
        Ok(header)
    }

    /// Translates a parsed Opayo error body into the canonical error shape.
    pub fn build_error_response(&self, status_code: u16, response: &OpayoErrorResponse) -> (r:
        ErrorResponse)
        ensures
            r.status_code == status_code,
            r.code@ == response.code@,
            r.message@ == response.message@,
            crate::types::opt_string_view_eq(r.reason, response.reason),
    {
        let reason = match &response.reason {
            Some(s) => Some(s.clone()),
            None => None,
        };
        ErrorResponse {
            status_code,
            code: response.code.clone(),
            message: response.message.clone(),
            reason,
        }
    }

    /// The tokenize flow needs a merchant session key first: the nested
    /// session-token attempt it spawns, sharing only the merchant identifier
    /// and read-only credentials with the outer attempt, its response slot
    /// unset.
    pub fn pretask_session_token_request(&self, router_data: &TokenizationRouterData) -> (r:
        PaymentsAuthorizeSessionTokenRouterData)
        ensures
            r.payment_id@ == router_data.payment_id@,
            r.status == router_data.status,
            r.connector_auth_type == router_data.connector_auth_type,
            r.response is None,
            r.session_token is None,
            r.reference_id is None,
            r.connector_metadata is None,
    {
        RouterData {
            flow: AuthorizeSessionToken,
            payment_id: router_data.payment_id.clone(),
            status: router_data.status,
            request: AuthorizeSessionTokenData,
            response: None,
            connector_auth_type: router_data.connector_auth_type.clone_auth(),
            session_token: None,
            reference_id: None,
            connector_metadata: None,
        }
    }

    /// Writes the pretask's single output — the session token — back into the
    /// outer attempt, leaving everything else unchanged.
    pub fn apply_pretask_result(
        &self,
        router_data: &mut TokenizationRouterData,
        session_token: Option<String>,
    )
        ensures
            final(router_data).session_token == session_token,
            final(router_data).flow == old(router_data).flow,
            final(router_data).payment_id == old(router_data).payment_id,
            final(router_data).status == old(router_data).status,
            final(router_data).request == old(router_data).request,
            final(router_data).response == old(router_data).response,
            final(router_data).connector_auth_type == old(router_data).connector_auth_type,
            final(router_data).reference_id == old(router_data).reference_id,
            final(router_data).connector_metadata == old(router_data).connector_metadata,
    {
        router_data.session_token = session_token;
    }

    /// Webhook support is absent for this connector: callers fall back to
    /// polling via the sync flow. Fails for every request.
    pub fn get_webhook_object_reference_id(
        &self,
        _request: &IncomingWebhookRequestDetails,
    ) -> (r: Result<ObjectReferenceId, ConnectorError>)
        ensures
            r matches Err(e) && e == ConnectorError::WebhooksNotImplemented,
    {
        Err(ConnectorError::WebhooksNotImplemented)
    }

    /// Webhook support is absent for this connector. Fails for every request.
    pub fn get_webhook_event_type(&self, _request: &IncomingWebhookRequestDetails) -> (r: Result<
        IncomingWebhookEvent,
        ConnectorError,
    >)
        ensures
            r matches Err(e) && e == ConnectorError::WebhooksNotImplemented,
    {
        Err(ConnectorError::WebhooksNotImplemented)
    }

    /// Webhook support is absent for this connector. Fails for every request.
    pub fn get_webhook_resource_object(&self, _request: &IncomingWebhookRequestDetails) -> (r:
        Result<Vec<u8>, ConnectorError>)
        ensures
            r matches Err(e) && e == ConnectorError::WebhooksNotImplemented,
    {
        Err(ConnectorError::WebhooksNotImplemented)
    }
}

/// Body of the merchant-session-keys call.
#[derive(Clone, Debug)]
pub struct OpayoSessionRequest {
    pub vendor_name: String,
}

impl OpayoSessionRequest {
    /// Builds the session-key request from the vendor key in the credentials.
    pub fn try_from(item: &PaymentsAuthorizeSessionTokenRouterData) -> (r: Result<
        Self,
        ConnectorError,
    >)
        ensures
            match r {
                Ok(req) => item.connector_auth_type matches ConnectorAuthType::BodyKey {
                    api_key,
                    key1,
                } && req.vendor_name@ == key1@,
                Err(e) => !(item.connector_auth_type is BodyKey) && e
                    == ConnectorError::FailedToObtainAuthType,
            },
    {
        let auth = match OpayoAuthType::try_from(&item.connector_auth_type) {
            Ok(a) => a,
            Err(e) => {
                return Err(e);
            },
        };
        Ok(OpayoSessionRequest { vendor_name: auth.key1 })
    }
}

/// Body of the card-identifiers (tokenization) call.
#[derive(Clone, Debug)]
pub struct OpayoCardIdentifierRequest {
    pub card_number: String,
    pub expiry_month: String,
    pub expiry_year: String,
    pub security_code: String,
}

impl OpayoCardIdentifierRequest {
    /// Builds the tokenization request from a card instrument; anything else
    /// is not implemented for this connector.
    pub fn try_from(item: &TokenizationRouterData) -> (r: Result<Self, ConnectorError>)
        ensures
            match r {
                Ok(req) => item.request.payment_method_data matches PaymentMethodData::Card(c) && {
                    &&& req.card_number@ == c.card_number@
                    &&& req.expiry_month@ == c.card_exp_month@
                    &&& req.expiry_year@ == c.card_exp_year@
                    &&& req.security_code@ == c.card_cvc@
                },
                Err(e) => !(item.request.payment_method_data is Card) && (e matches
                    ConnectorError::NotImplemented(m) && m@ == "Unknown payment method"@),
            },
    {
        match &item.request.payment_method_data {
            PaymentMethodData::Card(c) => Ok(OpayoCardIdentifierRequest {
                card_number: c.card_number.clone(),
                expiry_month: c.card_exp_month.clone(),
                expiry_year: c.card_exp_year.clone(),
                security_code: c.card_cvc.clone(),
            }),
            PaymentMethodData::BankTransfer => Err(ConnectorError::NotImplemented(
                String::from_str("Unknown payment method"),
            )),
        }
    }
}

/// Body of the transactions (authorize) call. Opayo takes amounts in minor
/// units.
#[derive(Clone, Debug)]
pub struct OpayoPaymentsRequest {
    pub transaction_type: String,
    /// Unique id sent with each mutating call to the connector.
    pub vendor_tx_code: String,
    pub amount: i64,
    pub currency: Currency,
    pub description: String,
}

impl OpayoPaymentsRequest {
    /// Builds the authorize request: a fresh vendor transaction code, the
    /// amount and currency, and the merchant identifier as description.
    pub fn try_from(item: &PaymentsAuthorizeRouterData) -> (r: Result<Self, ConnectorError>)
        ensures
            match r {
                Ok(req) => {
                    &&& req.transaction_type@ == "Payment"@
                    &&& req.vendor_tx_code@.len() == 36
                    &&& req.amount == item.request.amount
                    &&& req.currency == item.request.currency
                    &&& req.description@ == item.payment_id@
                },
                Err(_) => false,
            },
    {
        Ok(OpayoPaymentsRequest {
            transaction_type: String::from_str("Payment"),
            vendor_tx_code: generate_request_id(),
            amount: item.request.amount,
            currency: item.request.currency,
            description: item.payment_id.clone(),
        })
    }
}

/// Body of the refund call.
#[derive(Clone, Debug)]
pub struct OpayoRefundRequest {
    pub transaction_type: String,
    /// Unique id sent with each mutating call to the connector.
    pub vendor_tx_code: String,
    pub amount: i64,
    pub description: String,
    /// The upstream transaction the refund concerns.
    pub reference_transaction_id: String,
}

impl OpayoRefundRequest {
    /// Builds the refund request against the upstream transaction.
    pub fn try_from(item: &RefundsRouterData<Execute>) -> (r: Result<Self, ConnectorError>)
        ensures
            match r {
                Ok(req) => {
                    &&& req.transaction_type@ == "Refund"@
                    &&& req.vendor_tx_code@.len() == 36
                    &&& req.amount == item.request.refund_amount
                    &&& req.description@ == field_or_empty(item.request.reason)
                    &&& req.reference_transaction_id@ == item.request.connector_transaction_id@
                },
                Err(_) => false,
            },
    {
        let description = match &item.request.reason {
            Some(s) => s.clone(),
            None => String::new(),
        };
        Ok(OpayoRefundRequest {
            transaction_type: String::from_str("Refund"),
            vendor_tx_code: generate_request_id(),
            amount: item.request.refund_amount,
            description,
            reference_transaction_id: item.request.connector_transaction_id.clone(),
        })
    }
}

/// Transaction state in the connector's own vocabulary.
#[derive(Clone, Copy, Debug, PartialEq, Eq, Structural)]
pub enum OpayoPaymentStatus {
    Succeeded,
    NotAuthed,
    Rejected,
}

/// The canonical status an Opayo transaction status maps to.
pub open spec fn spec_opayo_attempt_status(s: OpayoPaymentStatus) -> AttemptStatus {
    match s {
        OpayoPaymentStatus::Succeeded => AttemptStatus::Charged,
        OpayoPaymentStatus::NotAuthed => AttemptStatus::Failure,
        OpayoPaymentStatus::Rejected => AttemptStatus::Failure,
    }
}

/// Body of a transaction response from the connector.
#[derive(Clone, Debug)]
pub struct OpayoPaymentsResponse {
    pub transaction_id: String,
    pub status: OpayoPaymentStatus,
}

/// Body of a card-identifiers response.
#[derive(Clone, Debug)]
pub struct OpayoCardIdentifierResponse {
    pub card_identifier: String,
}

/// Body of a merchant-session-keys response.
#[derive(Clone, Debug)]
pub struct OpayoSessionResponse {
    pub merchant_session_key: String,
}

/// Body of a refund response from the connector.
#[derive(Clone, Debug)]
pub struct RefundResponse {
    pub transaction_id: String,
    pub status: OpayoPaymentStatus,
}

/// Error body in the connector's own shape.
#[derive(Clone, Debug)]
pub struct OpayoErrorResponse {
    pub code: String,
    pub message: String,
    pub reason: Option<String>,
}

/// Normalizes a transaction response into the attempt: the terminal write of
/// the status and the response slot. This connector issues no challenges, so
/// no redirect data is ever produced.
pub fn handle_payments_response<F, Req>(
    data: RouterData<F, Req, PaymentsResponseData>,
    response: OpayoPaymentsResponse,
) -> (r: RouterData<F, Req, PaymentsResponseData>)
    ensures
        r.status == spec_opayo_attempt_status(response.status),
        r.response matches Some(Ok(PaymentsResponseData::TransactionResponse {
            resource_id,
            redirection_data,
            mandate_reference,
            connector_metadata,
        })) && {
            &&& resource_id matches ResponseId::ConnectorTransactionId(t) && t@
                == response.transaction_id@
            &&& redirection_data is None
            &&& mandate_reference is None
            &&& connector_metadata is None
        },
        r.flow == data.flow,
        r.payment_id == data.payment_id,
        r.request == data.request,
        r.connector_auth_type == data.connector_auth_type,
        r.session_token == data.session_token,
        r.reference_id == data.reference_id,
        r.connector_metadata == data.connector_metadata,
{
    let status = match response.status {
        OpayoPaymentStatus::Succeeded => AttemptStatus::Charged,
        OpayoPaymentStatus::NotAuthed => AttemptStatus::Failure,
        OpayoPaymentStatus::Rejected => AttemptStatus::Failure,
    };
    RouterData {
        status,
        response: Some(
            Ok(
                PaymentsResponseData::TransactionResponse {
                    resource_id: ResponseId::ConnectorTransactionId(response.transaction_id),
                    redirection_data: None,
                    mandate_reference: None,
                    connector_metadata: None,
                },
            ),
        ),
        ..data
    }
}

/// Writes a tokenization response into the attempt: the card identifier
/// becomes the connector-side token.
pub fn handle_card_identifier_response(
    data: TokenizationRouterData,
    response: OpayoCardIdentifierResponse,
) -> (r: TokenizationRouterData)
    ensures
        r.response matches Some(Ok(PaymentsResponseData::TokenizationResponse { token })) && token@
            == response.card_identifier@,
        r.status == data.status,
        r.flow == data.flow,
        r.payment_id == data.payment_id,
        r.request == data.request,
        r.connector_auth_type == data.connector_auth_type,
        r.session_token == data.session_token,
        r.reference_id == data.reference_id,
        r.connector_metadata == data.connector_metadata,
{
    RouterData {
        response: Some(
            Ok(PaymentsResponseData::TokenizationResponse { token: response.card_identifier }),
        ),
        ..data
    }
}

/// Writes a session-key response into the attempt: the merchant session key
/// becomes both the success payload and the attempt's session token.
pub fn handle_session_response(
    data: PaymentsAuthorizeSessionTokenRouterData,
    response: OpayoSessionResponse,
) -> (r: PaymentsAuthorizeSessionTokenRouterData)
    ensures
        r.response matches Some(Ok(PaymentsResponseData::SessionTokenResponse { session_token }))
            && session_token@ == response.merchant_session_key@,
        r.session_token matches Some(t) && t@ == response.merchant_session_key@,
        r.status == data.status,
        r.flow == data.flow,
        r.payment_id == data.payment_id,
        r.request == data.request,
        r.connector_auth_type == data.connector_auth_type,
        r.reference_id == data.reference_id,
        r.connector_metadata == data.connector_metadata,
{
    RouterData {
        response: Some(
            Ok(
                PaymentsResponseData::SessionTokenResponse {
                    session_token: response.merchant_session_key.clone(),
                },
            ),
        ),
        session_token: Some(response.merchant_session_key),
        ..data
    }
}

/// Normalizes a refund response into the attempt: succeeded maps to a
/// successful refund; declined and rejected to a failed one.
pub fn handle_refund_response<F>(data: RefundsRouterData<F>, response: RefundResponse) -> (r:
    RefundsRouterData<F>)
    ensures
        r.response matches Some(Ok(d)) && d.connector_refund_id@ == response.transaction_id@
            && d.refund_status == (match response.status {
            OpayoPaymentStatus::Succeeded => crate::types::RefundStatus::Success,
            OpayoPaymentStatus::NotAuthed => crate::types::RefundStatus::Failure,
            OpayoPaymentStatus::Rejected => crate::types::RefundStatus::Failure,
        }),
        r.status == data.status,
        r.flow == data.flow,
        r.payment_id == data.payment_id,
        r.request == data.request,
        r.connector_auth_type == data.connector_auth_type,
        r.session_token == data.session_token,
        r.reference_id == data.reference_id,
        r.connector_metadata == data.connector_metadata,
{
    let refund_status = match response.status {
        OpayoPaymentStatus::Succeeded => crate::types::RefundStatus::Success,
        OpayoPaymentStatus::NotAuthed => crate::types::RefundStatus::Failure,
        OpayoPaymentStatus::Rejected => crate::types::RefundStatus::Failure,
    };
    RouterData {
        response: Some(
            Ok(
                RefundsResponseData {
                    connector_refund_id: response.transaction_id,
                    refund_status,
                },
            ),
        ),
        ..data
    }
}


impl ConnectorIntegration<Tokenize, PaymentMethodTokenizationData, PaymentsResponseData> for Opayo {
    open spec fn supports_flow(&self) -> bool {
        true
    }

    open spec fn spec_method(&self) -> Method {
        Method::Post
    }

    open spec fn spec_content_type(&self) -> Seq<char> {
        "application/json"@
    }

    open spec fn url_ok(
        &self,
        req: &TokenizationRouterData,
        connectors: &Connectors,
        url: Seq<char>,
    ) -> bool {
        url == connectors.opayo.base_url@ + "card-identifiers"@
    }

    open spec fn url_err(
        &self,
        req: &TokenizationRouterData,
        connectors: &Connectors,
        e: ConnectorError,
    ) -> bool {
        false
    }

    open spec fn headers_ok(
        &self,
        req: &TokenizationRouterData,
        connectors: &Connectors,
        h: Seq<(Seq<char>, Seq<char>)>,
    ) -> bool {
        req.session_token matches Some(t) && h == spec_opayo_token_headers(t@)
    }

    open spec fn headers_err(
        &self,
        req: &TokenizationRouterData,
        connectors: &Connectors,
        e: ConnectorError,
    ) -> bool {
        req.session_token is None && (e matches ConnectorError::MissingRequiredField(m) && m@
            == "session_token"@)
    }

    open spec fn body_ok(&self, req: &TokenizationRouterData, body: Option<RequestContent>) -> bool {
        req.request.payment_method_data matches PaymentMethodData::Card(c) && (body matches Some(
            RequestContent::OpayoCardIdentifier(b),
        ) && b.card_number@ == c.card_number@ && b.expiry_month@ == c.card_exp_month@
            && b.expiry_year@ == c.card_exp_year@ && b.security_code@ == c.card_cvc@)
    }

    open spec fn body_err(&self, req: &TokenizationRouterData, e: ConnectorError) -> bool {
        !(req.request.payment_method_data is Card) && (e matches ConnectorError::NotImplemented(m)
            && m@ == "Unknown payment method"@)
    }

    fn get_content_type(&self) -> String {
        String::from_str("application/json")
    }

    fn get_url(&self, req: &TokenizationRouterData, connectors: &Connectors) -> Result<
        String,
        ConnectorError,
    > {
        Ok(String::from_str(self.base_url(connectors)).concat("card-identifiers"))
    }

    fn get_headers(&self, req: &TokenizationRouterData, connectors: &Connectors) -> Result<
        Vec<(String, String)>,
        ConnectorError,
    > {
        let token = match &req.session_token {
            Some(t) => t.clone(),
            None => {
                return Err(ConnectorError::MissingRequiredField(String::from_str(
                    "session_token",
                )));
            },
        };
        let mut h: Vec<(String, String)> = Vec::new();
        h.push((String::from_str("Content-Type"), String::from_str("application/json")));
        h.push((String::from_str("Authorization"), String::from_str("Bearer ").concat(token.as_str())));
        proof {
            match req.session_token {
                Some(ref t) => {
                    assert(headers_view(h@)[0] == (h@[0].0@, h@[0].1@));
                    assert(headers_view(h@)[1] == (h@[1].0@, h@[1].1@));
                    assert(headers_view(h@) =~~= spec_opayo_token_headers(t@));
                },
                None => {},
            }
        }
        Ok(h)
    }

    fn get_request_body(&self, req: &TokenizationRouterData) -> Result<
        Option<RequestContent>,
        ConnectorError,
    > {
        match OpayoCardIdentifierRequest::try_from(req) {
            Ok(b) => Ok(Some(RequestContent::OpayoCardIdentifier(b))),
            Err(e) => Err(e),
        }
    }

    fn build_request(&self, req: &TokenizationRouterData, connectors: &Connectors) -> Result<
        Option<Request>,
        ConnectorError,
    > {
        let url = match self.get_url(req, connectors) {
            Ok(u) => u,
            Err(e) => {
                return Err(e);
            },
        };
        let headers = match self.get_headers(req, connectors) {
            Ok(h) => h,
            Err(e) => {
                return Err(e);
            },
        };
        let body = match self.get_request_body(req) {
            Ok(b) => b,
            Err(e) => {
                return Err(e);
            },
        };
        Ok(Some(Request { method: Method::Post, url, headers, body }))
    }
}

impl ConnectorIntegration<
    AuthorizeSessionToken,
    AuthorizeSessionTokenData,
    PaymentsResponseData,
> for Opayo {
    open spec fn supports_flow(&self) -> bool {
        true
    }

    open spec fn spec_method(&self) -> Method {
        Method::Post
    }

    open spec fn spec_content_type(&self) -> Seq<char> {
        "application/json"@
    }

    open spec fn url_ok(
        &self,
        req: &PaymentsAuthorizeSessionTokenRouterData,
        connectors: &Connectors,
        url: Seq<char>,
    ) -> bool {
        url == connectors.opayo.base_url@ + "merchant-session-keys"@
    }

    open spec fn url_err(
        &self,
        req: &PaymentsAuthorizeSessionTokenRouterData,
        connectors: &Connectors,
        e: ConnectorError,
    ) -> bool {
        false
    }

    open spec fn headers_ok(
        &self,
        req: &PaymentsAuthorizeSessionTokenRouterData,
        connectors: &Connectors,
        h: Seq<(Seq<char>, Seq<char>)>,
    ) -> bool {
        req.connector_auth_type matches ConnectorAuthType::BodyKey { api_key, key1 } && h
            == spec_opayo_headers(api_key@, key1@)
    }

    open spec fn headers_err(
        &self,
        req: &PaymentsAuthorizeSessionTokenRouterData,
        connectors: &Connectors,
        e: ConnectorError,
    ) -> bool {
        match req.connector_auth_type {
            ConnectorAuthType::BodyKey { api_key, key1 } => auth_too_long(api_key@, key1@) && e
                == ConnectorError::RequestEncodingFailed,
            _ => e == ConnectorError::FailedToObtainAuthType,
        }
    }

    open spec fn body_ok(
        &self,
        req: &PaymentsAuthorizeSessionTokenRouterData,
        body: Option<RequestContent>,
    ) -> bool {
        req.connector_auth_type matches ConnectorAuthType::BodyKey { api_key, key1 } && (body
            matches Some(RequestContent::OpayoSession(b)) && b.vendor_name@ == key1@)
    }

    open spec fn body_err(
        &self,
        req: &PaymentsAuthorizeSessionTokenRouterData,
        e: ConnectorError,
    ) -> bool {
        !(req.connector_auth_type is BodyKey) && e == ConnectorError::FailedToObtainAuthType
    }

    fn get_content_type(&self) -> String {
        String::from_str("application/json")
    }

    fn get_url(
        &self,
        req: &PaymentsAuthorizeSessionTokenRouterData,
        connectors: &Connectors,
    ) -> Result<String, ConnectorError> {
        Ok(String::from_str(self.base_url(connectors)).concat("merchant-session-keys"))
    }

    fn get_headers(
        &self,
        req: &PaymentsAuthorizeSessionTokenRouterData,
        connectors: &Connectors,
    ) -> Result<Vec<(String, String)>, ConnectorError> {
        self.build_headers(req)
    }

    fn get_request_body(&self, req: &PaymentsAuthorizeSessionTokenRouterData) -> Result<
        Option<RequestContent>,
        ConnectorError,
    > {
        match OpayoSessionRequest::try_from(req) {
            Ok(b) => Ok(Some(RequestContent::OpayoSession(b))),
            Err(e) => Err(e),
        }
    }

    fn build_request(
        &self,
        req: &PaymentsAuthorizeSessionTokenRouterData,
        connectors: &Connectors,
    ) -> Result<Option<Request>, ConnectorError> {
        let url = match self.get_url(req, connectors) {
            Ok(u) => u,
            Err(e) => {
                return Err(e);
            },
        };
        let headers = match ConnectorIntegration::<
            AuthorizeSessionToken,
            AuthorizeSessionTokenData,
            PaymentsResponseData,
        >::get_headers(self, req, connectors) {
            Ok(h) => h,
            Err(e) => {
                return Err(e);
            },
        };
        let body = match self.get_request_body(req) {
            Ok(b) => b,
            Err(e) => {
                return Err(e);
            },
        };
        Ok(Some(Request { method: Method::Post, url, headers, body }))
    }
}

impl ConnectorIntegration<Authorize, PaymentsAuthorizeData, PaymentsResponseData> for Opayo {
    open spec fn supports_flow(&self) -> bool {
        true
    }

    open spec fn spec_method(&self) -> Method {
        Method::Post
    }

    open spec fn spec_content_type(&self) -> Seq<char> {
        "application/json"@
    }

    open spec fn url_ok(
        &self,
        req: &PaymentsAuthorizeRouterData,
        connectors: &Connectors,
        url: Seq<char>,
    ) -> bool {
        url == connectors.opayo.base_url@ + "transactions"@
    }

    open spec fn url_err(
        &self,
        req: &PaymentsAuthorizeRouterData,
        connectors: &Connectors,
        e: ConnectorError,
    ) -> bool {
        false
    }

    open spec fn headers_ok(
        &self,
        req: &PaymentsAuthorizeRouterData,
        connectors: &Connectors,
        h: Seq<(Seq<char>, Seq<char>)>,
    ) -> bool {
        req.connector_auth_type matches ConnectorAuthType::BodyKey { api_key, key1 } && h
            == spec_opayo_headers(api_key@, key1@)
    }

    open spec fn headers_err(
        &self,
        req: &PaymentsAuthorizeRouterData,
        connectors: &Connectors,
        e: ConnectorError,
    ) -> bool {
        match req.connector_auth_type {
            ConnectorAuthType::BodyKey { api_key, key1 } => auth_too_long(api_key@, key1@) && e
                == ConnectorError::RequestEncodingFailed,
            _ => e == ConnectorError::FailedToObtainAuthType,
        }
    }

    open spec fn body_ok(&self, req: &PaymentsAuthorizeRouterData, body: Option<RequestContent>) -> bool {
        body matches Some(RequestContent::OpayoPayments(b)) && b.transaction_type@ == "Payment"@
            && b.vendor_tx_code@.len() == 36 && b.amount == req.request.amount && b.currency
            == req.request.currency && b.description@ == req.payment_id@
    }

    open spec fn body_err(&self, req: &PaymentsAuthorizeRouterData, e: ConnectorError) -> bool {
        false
    }

    fn get_content_type(&self) -> String {
        String::from_str("application/json")
    }

    fn get_url(&self, req: &PaymentsAuthorizeRouterData, connectors: &Connectors) -> Result<
        String,
        ConnectorError,
    > {
        Ok(String::from_str(self.base_url(connectors)).concat("transactions"))
    }

    fn get_headers(&self, req: &PaymentsAuthorizeRouterData, connectors: &Connectors) -> Result<
        Vec<(String, String)>,
        ConnectorError,
    > {
        self.build_headers(req)
    }

    fn get_request_body(&self, req: &PaymentsAuthorizeRouterData) -> Result<
        Option<RequestContent>,
        ConnectorError,
    > {
        match OpayoPaymentsRequest::try_from(req) {
            Ok(b) => Ok(Some(RequestContent::OpayoPayments(b))),
            Err(e) => Err(e),
        }
    }

    fn build_request(&self, req: &PaymentsAuthorizeRouterData, connectors: &Connectors) -> Result<
        Option<Request>,
        ConnectorError,
    > {
        let url = match self.get_url(req, connectors) {
            Ok(u) => u,
            Err(e) => {
                return Err(e);
            },
        };
        let headers = match ConnectorIntegration::<
            Authorize,
            PaymentsAuthorizeData,
            PaymentsResponseData,
        >::get_headers(self, req, connectors) {
            Ok(h) => h,
            Err(e) => {
                return Err(e);
            },
        };
        let body = match self.get_request_body(req) {
            Ok(b) => b,
            Err(e) => {
                return Err(e);
            },
        };
        Ok(Some(Request { method: Method::Post, url, headers, body }))
    }
}

impl ConnectorIntegration<PSync, PaymentsSyncData, PaymentsResponseData> for Opayo {
    open spec fn supports_flow(&self) -> bool {
        true
    }

    open spec fn spec_method(&self) -> Method {
        Method::Get
    }

    open spec fn spec_content_type(&self) -> Seq<char> {
        "application/json"@
    }

    open spec fn url_ok(
        &self,
        req: &crate::types::PaymentsSyncRouterData,
        connectors: &Connectors,
        url: Seq<char>,
    ) -> bool {
        req.request.connector_transaction_id matches ResponseId::ConnectorTransactionId(t) && url
            == connectors.opayo.base_url@ + "transactions/"@ + t@
    }

    open spec fn url_err(
        &self,
        req: &crate::types::PaymentsSyncRouterData,
        connectors: &Connectors,
        e: ConnectorError,
    ) -> bool {
        req.request.connector_transaction_id is NoResponseId && e
            == ConnectorError::MissingConnectorTransactionID
    }

    open spec fn headers_ok(
        &self,
        req: &crate::types::PaymentsSyncRouterData,
        connectors: &Connectors,
        h: Seq<(Seq<char>, Seq<char>)>,
    ) -> bool {
        req.connector_auth_type matches ConnectorAuthType::BodyKey { api_key, key1 } && h
            == spec_opayo_headers(api_key@, key1@)
    }

    open spec fn headers_err(
        &self,
        req: &crate::types::PaymentsSyncRouterData,
        connectors: &Connectors,
        e: ConnectorError,
    ) -> bool {
        match req.connector_auth_type {
            ConnectorAuthType::BodyKey { api_key, key1 } => auth_too_long(api_key@, key1@) && e
                == ConnectorError::RequestEncodingFailed,
            _ => e == ConnectorError::FailedToObtainAuthType,
        }
    }

    open spec fn body_ok(
        &self,
        req: &crate::types::PaymentsSyncRouterData,
        body: Option<RequestContent>,
    ) -> bool {
        body is None
    }

    open spec fn body_err(&self, req: &crate::types::PaymentsSyncRouterData, e: ConnectorError) -> bool {
        false
    }

    fn get_content_type(&self) -> String {
        String::from_str("application/json")
    }

    fn get_url(
        &self,
        req: &crate::types::PaymentsSyncRouterData,
        connectors: &Connectors,
    ) -> Result<String, ConnectorError> {
        let txn_id = match req.request.connector_transaction_id.get_connector_transaction_id() {
            Ok(t) => t,
            Err(e) => {
                return Err(e);
            },
        };
        Ok(
            String::from_str(self.base_url(connectors)).concat("transactions/").concat(
                txn_id.as_str(),
            ),
        )
    }

    fn get_headers(
        &self,
        req: &crate::types::PaymentsSyncRouterData,
        connectors: &Connectors,
    ) -> Result<Vec<(String, String)>, ConnectorError> {
        self.build_headers(req)
    }

    fn get_request_body(&self, req: &crate::types::PaymentsSyncRouterData) -> Result<
        Option<RequestContent>,
        ConnectorError,
    > {
        Ok(None)
    }

    fn build_request(
        &self,
        req: &crate::types::PaymentsSyncRouterData,
        connectors: &Connectors,
    ) -> Result<Option<Request>, ConnectorError> {
        let url = match self.get_url(req, connectors) {
            Ok(u) => u,
            Err(e) => {
                return Err(e);
            },
        };
        let headers = match ConnectorIntegration::<
            PSync,
            PaymentsSyncData,
            PaymentsResponseData,
        >::get_headers(self, req, connectors) {
            Ok(h) => h,
            Err(e) => {
                return Err(e);
            },
        };
        Ok(Some(Request { method: Method::Get, url, headers, body: None }))
    }
}


impl ConnectorIntegration<Capture, PaymentsCaptureData, PaymentsResponseData> for Opayo {
    open spec fn supports_flow(&self) -> bool {
        true
    }

    open spec fn spec_method(&self) -> Method {
        Method::Post
    }

    open spec fn spec_content_type(&self) -> Seq<char> {
        "application/json"@
    }

    open spec fn url_ok(
        &self,
        req: &crate::types::PaymentsCaptureRouterData,
        connectors: &Connectors,
        url: Seq<char>,
    ) -> bool {
        false
    }

    open spec fn url_err(
        &self,
        req: &crate::types::PaymentsCaptureRouterData,
        connectors: &Connectors,
        e: ConnectorError,
    ) -> bool {
        e matches ConnectorError::NotImplemented(m) && m@ == "get_url method"@
    }

    open spec fn headers_ok(
        &self,
        req: &crate::types::PaymentsCaptureRouterData,
        connectors: &Connectors,
        h: Seq<(Seq<char>, Seq<char>)>,
    ) -> bool {
        req.connector_auth_type matches ConnectorAuthType::BodyKey { api_key, key1 } && h
            == spec_opayo_headers(api_key@, key1@)
    }

    open spec fn headers_err(
        &self,
        req: &crate::types::PaymentsCaptureRouterData,
        connectors: &Connectors,
        e: ConnectorError,
    ) -> bool {
        match req.connector_auth_type {
            ConnectorAuthType::BodyKey { api_key, key1 } => auth_too_long(api_key@, key1@) && e
                == ConnectorError::RequestEncodingFailed,
            _ => e == ConnectorError::FailedToObtainAuthType,
        }
    }

    open spec fn body_ok(
        &self,
        req: &crate::types::PaymentsCaptureRouterData,
        body: Option<RequestContent>,
    ) -> bool {
        false
    }

    open spec fn body_err(&self, req: &crate::types::PaymentsCaptureRouterData, e: ConnectorError) -> bool {
        e matches ConnectorError::NotImplemented(m) && m@ == "get_request_body method"@
    }

    fn get_content_type(&self) -> String {
        String::from_str("application/json")
    }

    fn get_url(
        &self,
        req: &crate::types::PaymentsCaptureRouterData,
        connectors: &Connectors,
    ) -> Result<String, ConnectorError> {
        Err(ConnectorError::NotImplemented(String::from_str("get_url method")))
    }

    fn get_headers(
        &self,
        req: &crate::types::PaymentsCaptureRouterData,
        connectors: &Connectors,
    ) -> Result<Vec<(String, String)>, ConnectorError> {
        self.build_headers(req)
    }

    fn get_request_body(&self, req: &crate::types::PaymentsCaptureRouterData) -> Result<
        Option<RequestContent>,
        ConnectorError,
    > {
        Err(ConnectorError::NotImplemented(String::from_str("get_request_body method")))
    }

    fn build_request(
        &self,
        req: &crate::types::PaymentsCaptureRouterData,
        connectors: &Connectors,
    ) -> Result<Option<Request>, ConnectorError> {
        let url = match self.get_url(req, connectors) {
            Ok(u) => u,
            Err(e) => {
                return Err(e);
            },
        };
        let headers = match ConnectorIntegration::<
            Capture,
            PaymentsCaptureData,
            PaymentsResponseData,
        >::get_headers(self, req, connectors) {
            Ok(h) => h,
            Err(e) => {
                return Err(e);
            },
        };
        Ok(Some(Request { method: Method::Post, url, headers, body: None }))
    }
}

impl ConnectorIntegration<Void, PaymentsCancelData, PaymentsResponseData> for Opayo {
    open spec fn supports_flow(&self) -> bool {
        false
    }

    open spec fn spec_method(&self) -> Method {
        Method::Post
    }

    open spec fn spec_content_type(&self) -> Seq<char> {
        "application/json"@
    }

    open spec fn url_ok(
        &self,
        req: &crate::types::PaymentsCancelRouterData,
        connectors: &Connectors,
        url: Seq<char>,
    ) -> bool {
        url == Seq::<char>::empty()
    }

    open spec fn url_err(
        &self,
        req: &crate::types::PaymentsCancelRouterData,
        connectors: &Connectors,
        e: ConnectorError,
    ) -> bool {
        false
    }

    open spec fn headers_ok(
        &self,
        req: &crate::types::PaymentsCancelRouterData,
        connectors: &Connectors,
        h: Seq<(Seq<char>, Seq<char>)>,
    ) -> bool {
        h == Seq::<(Seq<char>, Seq<char>)>::empty()
    }

    open spec fn headers_err(
        &self,
        req: &crate::types::PaymentsCancelRouterData,
        connectors: &Connectors,
        e: ConnectorError,
    ) -> bool {
        false
    }

    open spec fn body_ok(
        &self,
        req: &crate::types::PaymentsCancelRouterData,
        body: Option<RequestContent>,
    ) -> bool {
        body is None
    }

    open spec fn body_err(&self, req: &crate::types::PaymentsCancelRouterData, e: ConnectorError) -> bool {
        false
    }

    fn get_content_type(&self) -> String {
        String::from_str("application/json")
    }

    fn get_url(
        &self,
        req: &crate::types::PaymentsCancelRouterData,
        connectors: &Connectors,
    ) -> Result<String, ConnectorError> {
        Ok(String::new())
    }

    fn get_headers(
        &self,
        req: &crate::types::PaymentsCancelRouterData,
        connectors: &Connectors,
    ) -> Result<Vec<(String, String)>, ConnectorError> {
        let h: Vec<(String, String)> = Vec::new();
        proof {
            assert(headers_view(h@) =~~= Seq::<(Seq<char>, Seq<char>)>::empty());
        }
        Ok(h)
    }

    fn get_request_body(&self, req: &crate::types::PaymentsCancelRouterData) -> Result<
        Option<RequestContent>,
        ConnectorError,
    > {
        Ok(None)
    }

    fn build_request(
        &self,
        req: &crate::types::PaymentsCancelRouterData,
        connectors: &Connectors,
    ) -> Result<Option<Request>, ConnectorError> {
        Ok(None)
    }
}

impl ConnectorIntegration<Execute, RefundsData, RefundsResponseData> for Opayo {
    open spec fn supports_flow(&self) -> bool {
        true
    }

    open spec fn spec_method(&self) -> Method {
        Method::Post
    }

    open spec fn spec_content_type(&self) -> Seq<char> {
        "application/json"@
    }

    open spec fn url_ok(
        &self,
        req: &RefundsRouterData<Execute>,
        connectors: &Connectors,
        url: Seq<char>,
    ) -> bool {
        false
    }

    open spec fn url_err(
        &self,
        req: &RefundsRouterData<Execute>,
        connectors: &Connectors,
        e: ConnectorError,
    ) -> bool {
        e matches ConnectorError::NotImplemented(m) && m@ == "get_url method"@
    }

    open spec fn headers_ok(
        &self,
        req: &RefundsRouterData<Execute>,
        connectors: &Connectors,
        h: Seq<(Seq<char>, Seq<char>)>,
    ) -> bool {
        req.connector_auth_type matches ConnectorAuthType::BodyKey { api_key, key1 } && h
            == spec_opayo_headers(api_key@, key1@)
    }

    open spec fn headers_err(
        &self,
        req: &RefundsRouterData<Execute>,
        connectors: &Connectors,
        e: ConnectorError,
    ) -> bool {
        match req.connector_auth_type {
            ConnectorAuthType::BodyKey { api_key, key1 } => auth_too_long(api_key@, key1@) && e
                == ConnectorError::RequestEncodingFailed,
            _ => e == ConnectorError::FailedToObtainAuthType,
        }
    }

    open spec fn body_ok(&self, req: &RefundsRouterData<Execute>, body: Option<RequestContent>) -> bool {
        body matches Some(RequestContent::OpayoRefund(b)) && b.transaction_type@ == "Refund"@
            && b.vendor_tx_code@.len() == 36 && b.amount == req.request.refund_amount
            && b.description@ == field_or_empty(req.request.reason)
            && b.reference_transaction_id@ == req.request.connector_transaction_id@
    }

    open spec fn body_err(&self, req: &RefundsRouterData<Execute>, e: ConnectorError) -> bool {
        false
    }

    fn get_content_type(&self) -> String {
        String::from_str("application/json")
    }

    fn get_url(&self, req: &RefundsRouterData<Execute>, connectors: &Connectors) -> Result<
        String,
        ConnectorError,
    > {
        Err(ConnectorError::NotImplemented(String::from_str("get_url method")))
    }

    fn get_headers(&self, req: &RefundsRouterData<Execute>, connectors: &Connectors) -> Result<
        Vec<(String, String)>,
        ConnectorError,
    > {
        self.build_headers(req)
    }

    fn get_request_body(&self, req: &RefundsRouterData<Execute>) -> Result<
        Option<RequestContent>,
        ConnectorError,
    > {
        match OpayoRefundRequest::try_from(req) {
            Ok(b) => Ok(Some(RequestContent::OpayoRefund(b))),
            Err(e) => Err(e),
        }
    }

    fn build_request(&self, req: &RefundsRouterData<Execute>, connectors: &Connectors) -> Result<
        Option<Request>,
        ConnectorError,
    > {
        let url = match self.get_url(req, connectors) {
            Ok(u) => u,
            Err(e) => {
                return Err(e);
            },
        };
        let headers = match ConnectorIntegration::<
            Execute,
            RefundsData,
            RefundsResponseData,
        >::get_headers(self, req, connectors) {
            Ok(h) => h,
            Err(e) => {
                return Err(e);
            },
        };
        let body = match self.get_request_body(req) {
            Ok(b) => b,
            Err(e) => {
                return Err(e);
            },
        };
        Ok(Some(Request { method: Method::Post, url, headers, body }))
    }
}

impl ConnectorIntegration<RSync, RefundsData, RefundsResponseData> for Opayo {
    open spec fn supports_flow(&self) -> bool {
        true
    }

    open spec fn spec_method(&self) -> Method {
        Method::Get
    }

    open spec fn spec_content_type(&self) -> Seq<char> {
        "application/json"@
    }

    open spec fn url_ok(
        &self,
        req: &crate::types::RefundSyncRouterData,
        connectors: &Connectors,
        url: Seq<char>,
    ) -> bool {
        false
    }

    open spec fn url_err(
        &self,
        req: &crate::types::RefundSyncRouterData,
        connectors: &Connectors,
        e: ConnectorError,
    ) -> bool {
        e matches ConnectorError::NotImplemented(m) && m@ == "get_url method"@
    }

    open spec fn headers_ok(
        &self,
        req: &crate::types::RefundSyncRouterData,
        connectors: &Connectors,
        h: Seq<(Seq<char>, Seq<char>)>,
    ) -> bool {
        req.connector_auth_type matches ConnectorAuthType::BodyKey { api_key, key1 } && h
            == spec_opayo_headers(api_key@, key1@)
    }

    open spec fn headers_err(
        &self,
        req: &crate::types::RefundSyncRouterData,
        connectors: &Connectors,
        e: ConnectorError,
    ) -> bool {
        match req.connector_auth_type {
            ConnectorAuthType::BodyKey { api_key, key1 } => auth_too_long(api_key@, key1@) && e
                == ConnectorError::RequestEncodingFailed,
            _ => e == ConnectorError::FailedToObtainAuthType,
        }
    }

    open spec fn body_ok(&self, req: &crate::types::RefundSyncRouterData, body: Option<RequestContent>) -> bool {
        body is None
    }

    open spec fn body_err(&self, req: &crate::types::RefundSyncRouterData, e: ConnectorError) -> bool {
        false
    }

    fn get_content_type(&self) -> String {
        String::from_str("application/json")
    }

    fn get_url(&self, req: &crate::types::RefundSyncRouterData, connectors: &Connectors) -> Result<
        String,
        ConnectorError,
    > {
        Err(ConnectorError::NotImplemented(String::from_str("get_url method")))
    }

    fn get_headers(
        &self,
        req: &crate::types::RefundSyncRouterData,
        connectors: &Connectors,
    ) -> Result<Vec<(String, String)>, ConnectorError> {
        self.build_headers(req)
    }

    fn get_request_body(&self, req: &crate::types::RefundSyncRouterData) -> Result<
        Option<RequestContent>,
        ConnectorError,
    > {
        Ok(None)
    }

    fn build_request(
        &self,
        req: &crate::types::RefundSyncRouterData,
        connectors: &Connectors,
    ) -> Result<Option<Request>, ConnectorError> {
        let url = match self.get_url(req, connectors) {
            Ok(u) => u,
            Err(e) => {
                return Err(e);
            },
        };
        let headers = match ConnectorIntegration::<
            RSync,
            RefundsData,
            RefundsResponseData,
        >::get_headers(self, req, connectors) {
            Ok(h) => h,
            Err(e) => {
                return Err(e);
            },
        };
        let body = match self.get_request_body(req) {
            Ok(b) => b,
            Err(e) => {
                return Err(e);
            },
        };
        Ok(Some(Request { method: Method::Get, url, headers, body }))
    }
}

} // verus!
