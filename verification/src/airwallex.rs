//! The Airwallex connector: request construction, status normalization with
//! the challenge-loop guard, the redirect form builder, and refund and
//! webhook shapes.

use vstd::prelude::*;

use crate::currency::Currency;
use crate::currency::spec_to_currency_base_unit;
use crate::currency::to_currency_base_unit;
use crate::types::AttemptStatus;
use crate::types::CaptureMethod;
use crate::types::ConnectorError;
use crate::types::Method;
use crate::types::PaymentMethodData;
use crate::types::PaymentsAuthorizeRouterData;
use crate::types::PaymentsCancelRouterData;
use crate::types::PaymentsCaptureRouterData;
use crate::types::PaymentsCompleteAuthorizeRouterData;
use crate::types::PaymentsInitRouterData;
use crate::types::AccessToken;
use crate::types::PaymentsResponseData;
use crate::types::RedirectForm;
use crate::types::field_or_empty;
use crate::types::opt_string_view_eq;
use crate::types::RefundsResponseData;
use crate::types::RefundsRouterData;
use crate::types::ResponseId;
use crate::types::RouterData;
use crate::types::generate_request_id;

verus! {

/// Body of the payment-intent creation call.
#[derive(Debug)]
pub struct AirwallexIntentRequest {
    /// Unique id sent with each mutating call to the connector.
    pub request_id: String,
    /// Amount in the decimal base-unit form.
    pub amount: String,
    pub currency: Currency,
    /// The merchant-side id this intent corresponds to.
    pub merchant_order_id: String,
}

impl AirwallexIntentRequest {
    /// Builds the intent request: a fresh request id, the amount converted to
    /// base units, and the merchant order id taken from the attempt.
    pub fn try_from(item: &PaymentsInitRouterData) -> (r: Result<Self, ConnectorError>)
        ensures
            match r {
                Ok(req) => {
                    &&& spec_to_currency_base_unit(item.request.amount, item.request.currency)
                        == Some(req.amount@)
                    &&& req.currency == item.request.currency
                    &&& req.merchant_order_id@ == item.payment_id@
                    &&& req.request_id@.len() == 36
                },
                Err(e) => spec_to_currency_base_unit(item.request.amount, item.request.currency)
                    is None && e == ConnectorError::AmountConversionFailed,
            },
    {
        let amount = match to_currency_base_unit(item.request.amount, item.request.currency) {
            Ok(a) => a,
            Err(e) => {
                return Err(e);
            },
        };
        Ok(AirwallexIntentRequest {
            request_id: generate_request_id(),
            amount,
            currency: item.request.currency,
            merchant_order_id: item.payment_id.clone(),
        })
    }
}

/// Card details in the connector's shape, with whitespace stripped from the
/// number.
#[derive(Debug)]
pub struct AirwallexCardDetails {
    pub expiry_month: String,
    pub expiry_year: String,
    pub number: String,
    pub cvc: String,
}

/// A card instrument together with its connector-side type tag.
#[derive(Debug)]
pub struct AirwallexCard {
    pub card: AirwallexCardDetails,
    pub payment_method_type: AirwallexPaymentType,
}

/// Connector-side tag of the instrument kind.
#[derive(Clone, Copy, Debug, PartialEq, Eq, Structural)]
pub enum AirwallexPaymentType {
    Card,
}

/// The instrument variants this connector accepts.
#[derive(Debug)]
pub enum AirwallexPaymentMethod {
    Card(AirwallexCard),
}

/// Card-specific options of a payment call.
#[derive(Clone, Copy, Debug, PartialEq, Eq, Structural)]
pub struct AirwallexCardPaymentOptions {
    pub auto_capture: bool,
}

/// Instrument-specific options of a payment call.
#[derive(Clone, Copy, Debug, PartialEq, Eq, Structural)]
pub enum AirwallexPaymentOptions {
    Card(AirwallexCardPaymentOptions),
}

/// Body of the payment confirmation (authorize) call.
#[derive(Debug)]
pub struct AirwallexPaymentsRequest {
    /// Unique id sent with each mutating call to the connector.
    pub request_id: String,
    pub payment_method: AirwallexPaymentMethod,
    pub payment_method_options: Option<AirwallexPaymentOptions>,
    pub return_url: Option<String>,
}

/// Whether `c` counts as whitespace when card numbers are normalized.
pub open spec fn is_space_char(c: char) -> bool {
    c == ' ' || c == '\t' || c == '\n' || c == '\r'
}

/// `s` with every whitespace character removed.
pub open spec fn strip_spaces(s: Seq<char>) -> Seq<char> {
    s.filter(|c: char| !is_space_char(c))
}

fn remove_whitespace(s: &str) -> (r: String)
    ensures
        r@ == strip_spaces(s@),
{
    let len: usize = s.unicode_len();
    let mut out = String::new();
    let mut i: usize = 0;
    proof {
        assert(s@.take(0) =~= Seq::<char>::empty());
        reveal(Seq::filter);
    }
    while i < len
        invariant
            i <= len == s@.len(),
            out@ == strip_spaces(s@.take(i as int)),
        decreases len - i,
    {
        let c = s.get_char(i);
        if !(c == ' ' || c == '\t' || c == '\n' || c == '\r') {
            let piece = s.substring_char(i, i + 1);
            out.append(piece);
        }
        proof {
            let prev = s@.take(i as int);
            let ext = s@.take(i + 1 as int);
            assert(ext.drop_last() =~= prev);
            assert(ext.last() == c);
            reveal(Seq::filter);
            assert(ext =~= prev.push(c));
            assert(strip_spaces(ext) == if !is_space_char(c) {
                strip_spaces(prev).push(c)
            } else {
                strip_spaces(prev)
            });
            if !is_space_char(c) {
                assert(s@.subrange(i as int, i + 1 as int) =~= seq![c]);
                assert(strip_spaces(prev).push(c) =~= strip_spaces(prev) + seq![c]);
            }
        }
        i = i + 1;
    }
    proof {
        assert(s@.take(len as int) =~= s@);
    }
    out
}

impl AirwallexPaymentsRequest {
    /// Builds the confirmation request from the attempt: card instruments are
    /// accepted (number stripped of whitespace, capture mode from the
    /// attempt); anything else is not implemented for this connector.
    pub fn try_from(item: &PaymentsAuthorizeRouterData) -> (r: Result<Self, ConnectorError>)
        ensures
            match r {
                Ok(req) => {
                    &&& item.request.payment_method_data matches PaymentMethodData::Card(c)
                    &&& req.payment_method matches AirwallexPaymentMethod::Card(ac) && {
                        &&& ac.card.number@ == strip_spaces(c.card_number@)
                        &&& ac.card.expiry_month@ == c.card_exp_month@
                        &&& ac.card.expiry_year@ == c.card_exp_year@
                        &&& ac.card.cvc@ == c.card_cvc@
                        &&& ac.payment_method_type == AirwallexPaymentType::Card
                    }
                    &&& req.payment_method_options == Some(
                        AirwallexPaymentOptions::Card(AirwallexCardPaymentOptions {
                            auto_capture: item.request.capture_method == Some(
                                CaptureMethod::Automatic,
                            ) || item.request.capture_method is None,
                        }),
                    )
                    &&& match (req.return_url, item.request.complete_authorize_url) {
                        (Some(r), Some(u)) => r@ == u@,
                        (None, None) => true,
                        _ => false,
                    }
                    &&& req.request_id@.len() == 36
                },
                Err(e) => !(item.request.payment_method_data is Card) && (e matches
                    ConnectorError::NotImplemented(m) && m@ == "Unknown payment method"@),
            },
    {
        match &item.request.payment_method_data {
            PaymentMethodData::Card(ccard) => {
                let auto_capture = match item.request.capture_method {
                    Some(CaptureMethod::Automatic) => true,
                    None => true,
                    Some(CaptureMethod::Manual) => false,
                };
                let payment_method_options = Some(
                    AirwallexPaymentOptions::Card(AirwallexCardPaymentOptions { auto_capture }),
                );
                let payment_method = AirwallexPaymentMethod::Card(AirwallexCard {
                    card: AirwallexCardDetails {
                        number: remove_whitespace(ccard.card_number.as_str()),
                        expiry_month: ccard.card_exp_month.clone(),
                        expiry_year: ccard.card_exp_year.clone(),
                        cvc: ccard.card_cvc.clone(),
                    },
                    payment_method_type: AirwallexPaymentType::Card,
                });
                let return_url = match &item.request.complete_authorize_url {
                    Some(u) => Some(u.clone()),
                    None => None,
                };
                Ok(AirwallexPaymentsRequest {
                    request_id: generate_request_id(),
                    payment_method,
                    payment_method_options,
                    return_url,
                })
            },
            PaymentMethodData::BankTransfer => Err(ConnectorError::NotImplemented(
                String::from_str("Unknown payment method"),
            )),
        }
    }
}

/// Body of the challenge-completion call.
#[derive(Debug)]
pub struct AirwallexCompleteRequest {
    pub request_id: String,
    pub three_ds: AirwallexThreeDsData,
    pub three_ds_type: AirwallexThreeDsType,
}

/// Challenge result forwarded back to the connector.
#[derive(Debug)]
pub struct AirwallexThreeDsData {
    /// Opaque response of the access-control server, if one came back.
    pub acs_response: Option<String>,
}

/// Tag of the challenge-completion call.
#[derive(Clone, Copy, Debug, PartialEq, Eq, Structural)]
pub enum AirwallexThreeDsType {
    ThreeDSContinue,
}

impl AirwallexCompleteRequest {
    /// Builds the challenge-completion request, forwarding the provider
    /// payload untouched.
    pub fn try_from(item: &PaymentsCompleteAuthorizeRouterData) -> (r: Result<
        Self,
        ConnectorError,
    >)
        ensures
            match r {
                Ok(req) => {
                    &&& opt_string_view_eq(req.three_ds.acs_response, item.request.payload)
                    &&& req.three_ds_type == AirwallexThreeDsType::ThreeDSContinue
                    &&& req.request_id@.len() == 36
                },
                Err(_) => false,
            },
    {
        let acs_response = match &item.request.payload {
            Some(p) => Some(p.clone()),
            None => None,
        };
        Ok(AirwallexCompleteRequest {
            request_id: generate_request_id(),
            three_ds: AirwallexThreeDsData { acs_response },
            three_ds_type: AirwallexThreeDsType::ThreeDSContinue,
        })
    }
}

/// Body of the capture call.
#[derive(Debug)]
pub struct AirwallexPaymentsCaptureRequest {
    pub request_id: String,
    pub amount: Option<String>,
}

impl AirwallexPaymentsCaptureRequest {
    /// Builds the capture request with the capture amount in base units.
    pub fn try_from(item: &PaymentsCaptureRouterData) -> (r: Result<Self, ConnectorError>)
        ensures
            match r {
                Ok(req) => {
                    &&& req.amount matches Some(a) && spec_to_currency_base_unit(
                        item.request.amount_to_capture,
                        item.request.currency,
                    ) == Some(a@)
                    &&& req.request_id@.len() == 36
                },
                Err(e) => spec_to_currency_base_unit(
                    item.request.amount_to_capture,
                    item.request.currency,
                ) is None && e == ConnectorError::AmountConversionFailed,
            },
    {
        let amount = match to_currency_base_unit(
            item.request.amount_to_capture,
            item.request.currency,
        ) {
            Ok(a) => a,
            Err(e) => {
                return Err(e);
            },
        };
        Ok(AirwallexPaymentsCaptureRequest {
            request_id: generate_request_id(),
            amount: Some(amount),
        })
    }
}

/// Body of the void call.
#[derive(Debug)]
pub struct AirwallexPaymentsCancelRequest {
    pub request_id: String,
    pub cancellation_reason: Option<String>,
}

impl AirwallexPaymentsCancelRequest {
    /// Builds the void request, forwarding the caller's reason.
    pub fn try_from(item: &PaymentsCancelRouterData) -> (r: Result<Self, ConnectorError>)
        ensures
            match r {
                Ok(req) => opt_string_view_eq(
                    req.cancellation_reason,
                    item.request.cancellation_reason,
                ) && req.request_id@.len() == 36,
                Err(_) => false,
            },
    {
        let cancellation_reason = match &item.request.cancellation_reason {
            Some(s) => Some(s.clone()),
            None => None,
        };
        Ok(AirwallexPaymentsCancelRequest {
            request_id: generate_request_id(),
            cancellation_reason,
        })
    }
}

/// Payment state in the connector's own vocabulary.
#[derive(Clone, Copy, Debug, PartialEq, Eq, Structural)]
pub enum AirwallexPaymentStatus {
    Succeeded,
    Failed,
    Pending,
    RequiresPaymentMethod,
    RequiresCustomerAction,
    RequiresCapture,
    Cancelled,
}

/// Stage of a pending challenge, as the connector reports it. Distinct stages
/// map to distinct canonical pending statuses, because downstream callers act
/// differently on each.
#[derive(Clone, Copy, Debug, PartialEq, Eq, Structural)]
pub enum AirwallexNextActionStage {
    WaitingDeviceDataCollection,
    WaitingUserInfoInput,
}

/// Provider fields of a challenge payload; the connector may omit any of
/// them.
#[derive(Clone, Debug)]
pub struct AirwallexRedirectFormData {
    pub jwt: Option<String>,
    pub three_ds_method_data: Option<String>,
    pub token: Option<String>,
    pub provider: Option<String>,
    pub version: Option<String>,
}

/// A challenge the connector asks the payer to complete.
#[derive(Clone, Debug)]
pub struct AirwallexPaymentsNextAction {
    pub url: String,
    pub method: Method,
    pub data: AirwallexRedirectFormData,
    pub stage: AirwallexNextActionStage,
}

/// Body of a payment response from the connector. The reported amount, when
/// present, is carried in minor units and not read by the normalizer.
#[derive(Clone, Debug)]
pub struct AirwallexPaymentsResponse {
    pub status: AirwallexPaymentStatus,
    /// Unique identifier of the connector-side payment intent.
    pub id: String,
    pub amount: Option<i64>,
    pub payment_consent_id: Option<String>,
    pub next_action: Option<AirwallexPaymentsNextAction>,
}

/// The canonical status a connector status maps to, before the loop guard.
pub open spec fn spec_payment_status(r: AirwallexPaymentsResponse) -> AttemptStatus {
    match r.status {
        AirwallexPaymentStatus::Succeeded => AttemptStatus::Charged,
        AirwallexPaymentStatus::Failed => AttemptStatus::Failure,
        AirwallexPaymentStatus::Pending => AttemptStatus::Pending,
        AirwallexPaymentStatus::RequiresPaymentMethod => AttemptStatus::PaymentMethodAwaited,
        AirwallexPaymentStatus::RequiresCustomerAction => match r.next_action {
            None => AttemptStatus::AuthenticationPending,
            Some(na) => match na.stage {
                AirwallexNextActionStage::WaitingDeviceDataCollection
                    => AttemptStatus::DeviceDataCollectionPending,
                AirwallexNextActionStage::WaitingUserInfoInput
                    => AttemptStatus::AuthenticationPending,
            },
        },
        AirwallexPaymentStatus::RequiresCapture => AttemptStatus::Authorized,
        AirwallexPaymentStatus::Cancelled => AttemptStatus::Voided,
    }
}

fn get_payment_status(response: &AirwallexPaymentsResponse) -> (s: AttemptStatus)
    ensures
        s == spec_payment_status(*response),
{
    match response.status {
        AirwallexPaymentStatus::Succeeded => AttemptStatus::Charged,
        AirwallexPaymentStatus::Failed => AttemptStatus::Failure,
        AirwallexPaymentStatus::Pending => AttemptStatus::Pending,
        AirwallexPaymentStatus::RequiresPaymentMethod => AttemptStatus::PaymentMethodAwaited,
        AirwallexPaymentStatus::RequiresCustomerAction => match &response.next_action {
            None => AttemptStatus::AuthenticationPending,
            Some(na) => match na.stage {
                AirwallexNextActionStage::WaitingDeviceDataCollection
                    => AttemptStatus::DeviceDataCollectionPending,
                AirwallexNextActionStage::WaitingUserInfoInput
                    => AttemptStatus::AuthenticationPending,
            },
        },
        AirwallexPaymentStatus::RequiresCapture => AttemptStatus::Authorized,
        AirwallexPaymentStatus::Cancelled => AttemptStatus::Voided,
    }
}

/// The loop-prevention rule: true exactly when the connector's challenge
/// represents no forward progress over the attempt's pre-call status — the
/// switch already issued this same challenge and is seeing the identical
/// "still waiting" answer again.
pub open spec fn loop_guard_trips(
    stage: AirwallexNextActionStage,
    prior: AttemptStatus,
    connector_status: AirwallexPaymentStatus,
) -> bool {
    ||| (stage == AirwallexNextActionStage::WaitingDeviceDataCollection && prior
        == AttemptStatus::DeviceDataCollectionPending)
    ||| (prior == AttemptStatus::AuthenticationPending && connector_status
        == AirwallexPaymentStatus::RequiresCustomerAction)
}

/// The fixed five-field schema of this connector's redirect form: every
/// canonical field present, with an empty value where the connector omitted
/// one.
pub open spec fn form_fields_match(v: Seq<(String, String)>, d: AirwallexRedirectFormData) -> bool {
    &&& v.len() == 5
    &&& v[0].0@ == "JWT"@ && v[0].1@ == field_or_empty(d.jwt)
    &&& v[1].0@ == "threeDSMethodData"@ && v[1].1@ == field_or_empty(d.three_ds_method_data)
    &&& v[2].0@ == "token"@ && v[2].1@ == field_or_empty(d.token)
    &&& v[3].0@ == "provider"@ && v[3].1@ == field_or_empty(d.provider)
    &&& v[4].0@ == "version"@ && v[4].1@ == field_or_empty(d.version)
}

fn field_value(o: &Option<String>) -> (r: String)
    ensures
        r@ == field_or_empty(*o),
{
    match o {
        Some(s) => s.clone(),
        None => String::new(),
    }
}

/// Builds the redirect form handed to the payer's browser: the challenge URL
/// and method, and the fixed field set with empty strings where the connector
/// omitted a field.
pub fn get_redirection_form(response_url_data: &AirwallexPaymentsNextAction) -> (r: Option<
    RedirectForm,
>)
    ensures
        r matches Some(f) && f.endpoint@ == response_url_data.url@ && f.method
            == response_url_data.method && form_fields_match(
            f.form_fields@,
            response_url_data.data,
        ),
{
    let mut form_fields: Vec<(String, String)> = Vec::new();
    form_fields.push((String::from_str("JWT"), field_value(&response_url_data.data.jwt)));
    form_fields.push(
        (
            String::from_str("threeDSMethodData"),
            field_value(&response_url_data.data.three_ds_method_data),
        ),
    );
    form_fields.push((String::from_str("token"), field_value(&response_url_data.data.token)));
    form_fields.push(
        (String::from_str("provider"), field_value(&response_url_data.data.provider)),
    );
    form_fields.push((String::from_str("version"), field_value(&response_url_data.data.version)));
    Some(
        RedirectForm {
            endpoint: response_url_data.url.clone(),
            method: response_url_data.method,
            form_fields,
        },
    )
}

/// The canonical status of an attempt after this response: the plain status
/// map, except that a no-progress challenge is forced to
/// AuthenticationFailed.
pub open spec fn spec_normalized_status(
    response: AirwallexPaymentsResponse,
    prior: AttemptStatus,
) -> AttemptStatus {
    match response.next_action {
        None => spec_payment_status(response),
        Some(na) => if loop_guard_trips(na.stage, prior, response.status) {
            AttemptStatus::AuthenticationFailed
        } else {
            spec_payment_status(response)
        },
    }
}

/// Whether this response hands a challenge on to the payer: only when the
/// connector sent one and the loop guard does not trip.
pub open spec fn spec_emits_redirect(
    response: AirwallexPaymentsResponse,
    prior: AttemptStatus,
) -> bool {
    match response.next_action {
        None => false,
        Some(na) => !loop_guard_trips(na.stage, prior, response.status),
    }
}

/// Loop guard, stated on its own: for every (previous status, challenge
/// stage) pair representing no forward progress, normalization yields
/// AuthenticationFailed and discards the redirect data, for every response
/// carrying such a challenge.
pub proof fn lemma_loop_guard(response: AirwallexPaymentsResponse, prior: AttemptStatus)
    requires
        response.next_action matches Some(na) && loop_guard_trips(na.stage, prior, response.status),
    ensures
        spec_normalized_status(response, prior) == AttemptStatus::AuthenticationFailed,
        !spec_emits_redirect(response, prior),
{
}

/// The full contract of [`handle_payments_response`], as one predicate: what
/// normalization writes into the attempt for a given raw response and
/// pre-call attempt.
pub open spec fn payments_response_normalized<F, Req>(
    data: RouterData<F, Req, PaymentsResponseData>,
    response: AirwallexPaymentsResponse,
    r: RouterData<F, Req, PaymentsResponseData>,
) -> bool {
    &&& r.status == spec_normalized_status(response, data.status)
    &&& (r.reference_id matches Some(id) && id@ == response.id@)
    &&& (r.response matches Some(Ok(PaymentsResponseData::TransactionResponse {
        resource_id,
        redirection_data,
        mandate_reference,
        connector_metadata,
    })) && {
        &&& resource_id matches ResponseId::ConnectorTransactionId(t) && t@ == response.id@
        &&& mandate_reference is None
        &&& connector_metadata is None
        &&& if spec_emits_redirect(response, data.status) {
            redirection_data matches Some(f) && {
                &&& f.endpoint@ == response.next_action.unwrap().url@
                &&& f.method == response.next_action.unwrap().method
                &&& form_fields_match(f.form_fields@, response.next_action.unwrap().data)
            }
        } else {
            redirection_data is None
        }
    })
    &&& r.flow == data.flow
    &&& r.payment_id == data.payment_id
    &&& r.request == data.request
    &&& r.connector_auth_type == data.connector_auth_type
    &&& r.session_token == data.session_token
    &&& r.connector_metadata == data.connector_metadata
}

/// Response handling is deterministic: two attempts normalized from identical
/// (raw response, pre-call attempt) agree on the canonical status, on the
/// recorded reference, and on the response slot they wrote — the same
/// transaction id, and the same redirect (or none), field for field.
pub proof fn lemma_handle_response_deterministic<F, Req>(
    data: RouterData<F, Req, PaymentsResponseData>,
    response: AirwallexPaymentsResponse,
    r1: RouterData<F, Req, PaymentsResponseData>,
    r2: RouterData<F, Req, PaymentsResponseData>,
)
    requires
        payments_response_normalized(data, response, r1),
        payments_response_normalized(data, response, r2),
    ensures
        r1.status == r2.status,
        (match (r1.reference_id, r2.reference_id) {
            (Some(a), Some(b)) => a@ == b@,
            _ => false,
        }),
        (match (r1.response, r2.response) {
            (
                Some(Ok(PaymentsResponseData::TransactionResponse {
                    resource_id: ra,
                    redirection_data: da,
                    ..
                })),
                Some(Ok(PaymentsResponseData::TransactionResponse {
                    resource_id: rb,
                    redirection_data: db,
                    ..
                })),
            ) => {
                &&& (match (ra, rb) {
                    (
                        ResponseId::ConnectorTransactionId(x),
                        ResponseId::ConnectorTransactionId(y),
                    ) => x@ == y@,
                    _ => false,
                })
                &&& (match (da, db) {
                    (None, None) => true,
                    (Some(fa), Some(fb)) => fa.endpoint@ == fb.endpoint@ && fa.method == fb.method
                        && crate::types::headers_view(fa.form_fields@) == crate::types::headers_view(
                        fb.form_fields@,
                    ),
                    _ => false,
                })
            },
            _ => false,
        }),
{
    if spec_emits_redirect(response, data.status) {
        match (r1.response, r2.response) {
            (
                Some(Ok(PaymentsResponseData::TransactionResponse {
                    redirection_data: Some(fa),
                    ..
                })),
                Some(Ok(PaymentsResponseData::TransactionResponse {
                    redirection_data: Some(fb),
                    ..
                })),
            ) => {
                assert(crate::types::headers_view(fa.form_fields@) =~~= crate::types::headers_view(
                    fb.form_fields@,
                ));
            },
            _ => {},
        }
    }
}

/// Normalizes a payment response into the attempt: the terminal write of the
/// status and the response slot. The outcome is a function of the raw
/// response and the attempt's pre-call status alone (see
/// [`lemma_handle_response_deterministic`]).
pub fn handle_payments_response<F, Req>(
    data: RouterData<F, Req, PaymentsResponseData>,
    response: AirwallexPaymentsResponse,
) -> (r: RouterData<F, Req, PaymentsResponseData>)
    ensures
        payments_response_normalized(data, response, r),
{
    let (status, redirection_data) = match &response.next_action {
        None => (get_payment_status(&response), None),
        Some(response_url_data) => {
            // A challenge the switch already issued, answered by the same
            // "still waiting" response, would loop forever; fail closed
            // instead of re-emitting it.
            let trips = (response_url_data.stage
                == AirwallexNextActionStage::WaitingDeviceDataCollection && data.status
                == AttemptStatus::DeviceDataCollectionPending) || (data.status
                == AttemptStatus::AuthenticationPending && response.status
                == AirwallexPaymentStatus::RequiresCustomerAction);
            if trips {
                (AttemptStatus::AuthenticationFailed, None)
            } else {
                (get_payment_status(&response), get_redirection_form(response_url_data))
            }
        },
    };
    RouterData {
        status,
        reference_id: Some(response.id.clone()),
        response: Some(
            Ok(
                PaymentsResponseData::TransactionResponse {
                    resource_id: ResponseId::ConnectorTransactionId(response.id),
                    redirection_data,
                    mandate_reference: None,
                    connector_metadata: None,
                },
            ),
        ),
        ..data
    }
}

/// Body of the refund call.
#[derive(Debug)]
pub struct AirwallexRefundRequest {
    pub request_id: String,
    /// Refund amount in base units; absent means "refund the full amount".
    pub amount: Option<String>,
    pub reason: Option<String>,
    /// The payment intent the refund concerns.
    pub payment_intent_id: String,
}

impl AirwallexRefundRequest {
    /// Builds the refund request with the refund amount in base units and the
    /// upstream payment intent id.
    pub fn try_from<F>(item: &RefundsRouterData<F>) -> (r: Result<Self, ConnectorError>)
        ensures
            match r {
                Ok(req) => {
                    &&& req.amount matches Some(a) && spec_to_currency_base_unit(
                        item.request.refund_amount,
                        item.request.currency,
                    ) == Some(a@)
                    &&& opt_string_view_eq(req.reason, item.request.reason)
                    &&& req.payment_intent_id@ == item.request.connector_transaction_id@
                    &&& req.request_id@.len() == 36
                },
                Err(e) => spec_to_currency_base_unit(
                    item.request.refund_amount,
                    item.request.currency,
                ) is None && e == ConnectorError::AmountConversionFailed,
            },
    {
        let amount = match to_currency_base_unit(
            item.request.refund_amount,
            item.request.currency,
        ) {
            Ok(a) => a,
            Err(e) => {
                return Err(e);
            },
        };
        let reason = match &item.request.reason {
            Some(s) => Some(s.clone()),
            None => None,
        };
        Ok(AirwallexRefundRequest {
            request_id: generate_request_id(),
            amount: Some(amount),
            reason,
            payment_intent_id: item.request.connector_transaction_id.clone(),
        })
    }
}

/// Refund state in the connector's own vocabulary.
#[derive(Clone, Copy, Debug, PartialEq, Eq, Structural)]
pub enum RefundStatus {
    Succeeded,
    Failed,
    Received,
    Accepted,
}

/// The canonical refund status a connector refund status maps to: "received"
/// and "accepted" both mean the refund is still pending.
pub open spec fn spec_canonical_refund_status(s: RefundStatus) -> crate::types::RefundStatus {
    match s {
        RefundStatus::Succeeded => crate::types::RefundStatus::Success,
        RefundStatus::Failed => crate::types::RefundStatus::Failure,
        RefundStatus::Received | RefundStatus::Accepted => crate::types::RefundStatus::Pending,
    }
}

impl core::convert::From<RefundStatus> for crate::types::RefundStatus {
    fn from(item: RefundStatus) -> (r: Self) {
        match item {
            RefundStatus::Succeeded => crate::types::RefundStatus::Success,
            RefundStatus::Failed => crate::types::RefundStatus::Failure,
            RefundStatus::Received | RefundStatus::Accepted => crate::types::RefundStatus::Pending,
        }
    }
}

impl vstd::std_specs::convert::FromSpecImpl<RefundStatus> for crate::types::RefundStatus {
    open spec fn obeys_from_spec() -> bool {
        true
    }

    open spec fn from_spec(t: RefundStatus) -> Self {
        spec_canonical_refund_status(t)
    }
}

/// Body of a refund response from the connector. The echoed amount is carried
/// in minor units and not read by the normalizer.
#[derive(Clone, Debug)]
pub struct RefundResponse {
    /// The scheme-level reference that tags the refund across the banks.
    pub acquirer_reference_number: String,
    pub amount: i64,
    /// Unique identifier of the connector-side refund.
    pub id: String,
    pub status: RefundStatus,
}

/// Normalizes a refund response into the attempt: the terminal write of the
/// response slot, holding the connector refund id and the canonical refund
/// status.
pub fn handle_refund_response<F>(data: RefundsRouterData<F>, response: RefundResponse) -> (r:
    RefundsRouterData<F>)
    ensures
        r.response matches Some(Ok(d)) && d.connector_refund_id@ == response.id@
            && d.refund_status == spec_canonical_refund_status(response.status),
        r.status == data.status,
        r.flow == data.flow,
        r.payment_id == data.payment_id,
        r.request == data.request,
        r.connector_auth_type == data.connector_auth_type,
        r.session_token == data.session_token,
        r.reference_id == data.reference_id,
        r.connector_metadata == data.connector_metadata,
{
    let refund_status = crate::types::RefundStatus::from(response.status);
    RouterData {
        response: Some(
            Ok(RefundsResponseData { connector_refund_id: response.id, refund_status }),
        ),
        ..data
    }
}

/// Body of an access-token response: the token and its expiry as an epoch
/// timestamp in seconds.
#[derive(Clone, Debug)]
pub struct AirwallexAuthUpdateResponse {
    pub expires_at: i64,
    pub token: String,
}

/// Writes a fresh access token into the attempt, with its remaining lifetime
/// computed against the given current time (epoch seconds).
pub fn handle_auth_update_response<F, Req>(
    data: RouterData<F, Req, AccessToken>,
    response: AirwallexAuthUpdateResponse,
    now_epoch_seconds: i64,
) -> (r: RouterData<F, Req, AccessToken>)
    requires
        i64::MIN <= response.expires_at - now_epoch_seconds <= i64::MAX,
    ensures
        r.response matches Some(Ok(tok)) && tok.token@ == response.token@ && tok.expires
            == response.expires_at - now_epoch_seconds,
        r.status == data.status,
        r.flow == data.flow,
        r.payment_id == data.payment_id,
        r.request == data.request,
        r.connector_auth_type == data.connector_auth_type,
        r.session_token == data.session_token,
        r.reference_id == data.reference_id,
        r.connector_metadata == data.connector_metadata,
{
    let expires = response.expires_at - now_epoch_seconds;
    RouterData {
        response: Some(Ok(AccessToken { token: response.token, expires })),
        ..data
    }
}

/// The envelope of a webhook event: which connector object it concerns and
/// the event name.
#[derive(Clone, Debug)]
pub struct AirwallexWebhookData {
    pub source_id: String,
    pub name: String,
}

/// The resource body a webhook carries, kept opaque for downstream
/// reprocessing.
#[derive(Clone, Debug)]
pub struct AirwallexWebhookDataResource {
    /// The raw resource object, as the connector sent it.
    pub object: String,
}

/// A webhook payload's resource wrapper.
#[derive(Clone, Debug)]
pub struct AirwallexWebhookObjectResource {
    pub data: AirwallexWebhookDataResource,
}

/// Error body in the connector's own shape.
#[derive(Clone, Debug)]
pub struct AirwallexErrorResponse {
    pub code: String,
    pub message: String,
    pub source: Option<String>,
}

} // verus!
