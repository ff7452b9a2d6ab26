use payment_switch::contract::ConnectorIntegration;
use payment_switch::opayo::Opayo;
use payment_switch::opayo::OpayoCardIdentifierResponse;
use payment_switch::opayo::OpayoPaymentStatus;
use payment_switch::opayo::OpayoPaymentsResponse;
use payment_switch::opayo::OpayoSessionResponse;
use payment_switch::opayo::RefundResponse;
use payment_switch::opayo::handle_card_identifier_response;
use payment_switch::opayo::handle_payments_response;
use payment_switch::opayo::handle_refund_response;
use payment_switch::opayo::handle_session_response;
use payment_switch::types::AttemptStatus;
use payment_switch::types::Authorize;
use payment_switch::types::Capture;
use payment_switch::types::Card;
use payment_switch::types::ConnectorAuthType;
use payment_switch::types::ConnectorError;
use payment_switch::types::ConnectorParams;
use payment_switch::types::Connectors;
use payment_switch::types::Execute;
use payment_switch::types::IncomingWebhookRequestDetails;
use payment_switch::types::Method;
use payment_switch::types::PSync;
use payment_switch::types::PaymentMethodData;
use payment_switch::types::PaymentMethodTokenizationData;
use payment_switch::types::PaymentsAuthorizeData;
use payment_switch::types::PaymentsCancelData;
use payment_switch::types::PaymentsCaptureData;
use payment_switch::types::PaymentsResponseData;
use payment_switch::types::PaymentsSyncData;
use payment_switch::types::RefundsData;
use payment_switch::types::RequestContent;
use payment_switch::types::ResponseId;
use payment_switch::types::RouterData;
use payment_switch::types::Tokenize;
use payment_switch::types::TokenizationRouterData;
use payment_switch::types::Void;
use payment_switch::currency::Currency;

fn connectors() -> Connectors {
    Connectors {
        airwallex: ConnectorParams { base_url: String::from("https://api.airwallex.example/") },
        opayo: ConnectorParams { base_url: String::from("https://pi-test.sagepay.example/api/v1/") },
    }
}

fn body_key_auth() -> ConnectorAuthType {
    ConnectorAuthType::BodyKey { api_key: String::from("user"), key1: String::from("pass") }
}

fn card() -> PaymentMethodData {
    PaymentMethodData::Card(Card {
        card_number: String::from("4929000000006"),
        card_exp_month: String::from("03"),
        card_exp_year: String::from("2030"),
        card_cvc: String::from("123"),
    })
}

fn authorize_attempt() -> RouterData<Authorize, PaymentsAuthorizeData, PaymentsResponseData> {
    RouterData {
        flow: Authorize,
        payment_id: String::from("pay_9"),
        status: AttemptStatus::Pending,
        request: PaymentsAuthorizeData {
            amount: 10000,
            currency: Currency::GBP,
            payment_method_data: card(),
            capture_method: None,
            complete_authorize_url: None,
        },
        response: None,
        connector_auth_type: body_key_auth(),
        session_token: None,
        reference_id: None,
        connector_metadata: None,
    }
}

fn tokenize_attempt(session: Option<String>) -> TokenizationRouterData {
    RouterData {
        flow: Tokenize,
        payment_id: String::from("pay_9"),
        status: AttemptStatus::Pending,
        request: PaymentMethodTokenizationData { payment_method_data: card() },
        response: None,
        connector_auth_type: body_key_auth(),
        session_token: session,
        reference_id: None,
        connector_metadata: None,
    }
}

#[test]
fn webhook_reference_id_is_not_implemented() {
    let req = IncomingWebhookRequestDetails { body: vec![1, 2, 3] };
    assert!(matches!(
        Opayo.get_webhook_object_reference_id(&req),
        Err(ConnectorError::WebhooksNotImplemented)
    ));
}

#[test]
fn webhook_event_type_is_not_implemented() {
    let req = IncomingWebhookRequestDetails { body: vec![] };
    assert!(matches!(
        Opayo.get_webhook_event_type(&req),
        Err(ConnectorError::WebhooksNotImplemented)
    ));
}

#[test]
fn webhook_resource_object_is_not_implemented() {
    let req = IncomingWebhookRequestDetails { body: vec![0] };
    assert!(matches!(
        Opayo.get_webhook_resource_object(&req),
        Err(ConnectorError::WebhooksNotImplemented)
    ));
}

#[test]
fn auth_header_encodes_credentials() {
    let headers = Opayo.get_auth_header(&body_key_auth()).unwrap();
    assert_eq!(headers.len(), 1);
    assert_eq!(headers[0].0, "Authorization");
    // base64 of "user:pass" under the standard padded alphabet.
    assert_eq!(headers[0].1, "Basic dXNlcjpwYXNz");
}

#[test]
fn auth_header_rejects_other_schemes() {
    let auth = ConnectorAuthType::HeaderKey { api_key: String::from("k") };
    assert!(matches!(
        Opayo.get_auth_header(&auth),
        Err(ConnectorError::FailedToObtainAuthType)
    ));
}

#[test]
fn build_headers_appends_content_type() {
    let headers = Opayo.build_headers(&authorize_attempt()).unwrap();
    assert_eq!(headers.len(), 2);
    assert_eq!(headers[0].0, "Authorization");
    assert_eq!(headers[1].0, "Content-Type");
    assert_eq!(headers[1].1, "application/json");
}

#[test]
fn authorize_build_request_assembles_descriptor() {
    let req = authorize_attempt();
    let request = Opayo.build_request(&req, &connectors()).unwrap().unwrap();
    assert_eq!(request.method, Method::Post);
    assert_eq!(request.url, "https://pi-test.sagepay.example/api/v1/transactions");
    assert_eq!(request.headers.len(), 2);
    match request.body {
        Some(RequestContent::OpayoPayments(b)) => {
            assert_eq!(b.transaction_type, "Payment");
            assert_eq!(b.amount, 10000);
            assert_eq!(b.currency, Currency::GBP);
            assert_eq!(b.description, "pay_9");
            assert_eq!(b.vendor_tx_code.len(), 36);
        }
        other => panic!("unexpected body: {:?}", other),
    }
}

#[test]
fn authorize_vendor_tx_codes_differ_across_attempts() {
    let req = authorize_attempt();
    let first = Opayo.build_request(&req, &connectors()).unwrap().unwrap();
    let second = Opayo.build_request(&req, &connectors()).unwrap().unwrap();
    match (first.body, second.body) {
        (Some(RequestContent::OpayoPayments(a)), Some(RequestContent::OpayoPayments(b))) => {
            assert_ne!(a.vendor_tx_code, b.vendor_tx_code);
        }
        other => panic!("unexpected bodies: {:?}", other),
    }
}

#[test]
fn sync_url_carries_transaction_id() {
    let req: RouterData<PSync, PaymentsSyncData, PaymentsResponseData> = RouterData {
        flow: PSync,
        payment_id: String::from("pay_9"),
        status: AttemptStatus::Pending,
        request: PaymentsSyncData {
            connector_transaction_id: ResponseId::ConnectorTransactionId(String::from("txn-1")),
        },
        response: None,
        connector_auth_type: body_key_auth(),
        session_token: None,
        reference_id: None,
        connector_metadata: None,
    };
    let url = Opayo.get_url(&req, &connectors()).unwrap();
    assert_eq!(url, "https://pi-test.sagepay.example/api/v1/transactions/txn-1");
    let request = Opayo.build_request(&req, &connectors()).unwrap().unwrap();
    assert_eq!(request.method, Method::Get);
    assert!(request.body.is_none());
}

#[test]
fn sync_url_fails_without_transaction_id() {
    let req: RouterData<PSync, PaymentsSyncData, PaymentsResponseData> = RouterData {
        flow: PSync,
        payment_id: String::from("pay_9"),
        status: AttemptStatus::Pending,
        request: PaymentsSyncData { connector_transaction_id: ResponseId::NoResponseId },
        response: None,
        connector_auth_type: body_key_auth(),
        session_token: None,
        reference_id: None,
        connector_metadata: None,
    };
    assert!(matches!(
        Opayo.get_url(&req, &connectors()),
        Err(ConnectorError::MissingConnectorTransactionID)
    ));
}

#[test]
fn capture_url_is_not_implemented() {
    let req: RouterData<Capture, PaymentsCaptureData, PaymentsResponseData> = RouterData {
        flow: Capture,
        payment_id: String::from("pay_9"),
        status: AttemptStatus::Authorized,
        request: PaymentsCaptureData {
            amount_to_capture: 10000,
            currency: Currency::GBP,
            connector_transaction_id: String::from("txn-1"),
        },
        response: None,
        connector_auth_type: body_key_auth(),
        session_token: None,
        reference_id: None,
        connector_metadata: None,
    };
    match ConnectorIntegration::<Capture, _, _>::get_url(&Opayo, &req, &connectors()) {
        Err(ConnectorError::NotImplemented(m)) => assert_eq!(m, "get_url method"),
        other => panic!("unexpected result: {:?}", other),
    }
    match Opayo.build_request(&req, &connectors()) {
        Err(ConnectorError::NotImplemented(m)) => assert_eq!(m, "get_url method"),
        other => panic!("unexpected result: {:?}", other),
    }
}

#[test]
fn void_flow_is_unsupported() {
    let req: RouterData<Void, PaymentsCancelData, PaymentsResponseData> = RouterData {
        flow: Void,
        payment_id: String::from("pay_9"),
        status: AttemptStatus::Authorized,
        request: PaymentsCancelData {
            cancellation_reason: None,
            connector_transaction_id: String::from("txn-1"),
        },
        response: None,
        connector_auth_type: body_key_auth(),
        session_token: None,
        reference_id: None,
        connector_metadata: None,
    };
    assert!(Opayo.build_request(&req, &connectors()).unwrap().is_none());
}

#[test]
fn tokenize_headers_use_session_token() {
    let req = tokenize_attempt(Some(String::from("msk-1")));
    let headers = ConnectorIntegration::<Tokenize, _, _>::get_headers(&Opayo, &req, &connectors())
        .unwrap();
    assert_eq!(headers.len(), 2);
    assert_eq!(headers[0].0, "Content-Type");
    assert_eq!(headers[0].1, "application/json");
    assert_eq!(headers[1].0, "Authorization");
    assert_eq!(headers[1].1, "Bearer msk-1");
}

#[test]
fn tokenize_headers_fail_without_session_token() {
    let req = tokenize_attempt(None);
    match ConnectorIntegration::<Tokenize, _, _>::get_headers(&Opayo, &req, &connectors()) {
        Err(ConnectorError::MissingRequiredField(f)) => assert_eq!(f, "session_token"),
        other => panic!("unexpected result: {:?}", other),
    }
}

#[test]
fn tokenize_url_and_body() {
    let req = tokenize_attempt(Some(String::from("msk-1")));
    let request = Opayo.build_request(&req, &connectors()).unwrap().unwrap();
    assert_eq!(request.url, "https://pi-test.sagepay.example/api/v1/card-identifiers");
    match request.body {
        Some(RequestContent::OpayoCardIdentifier(b)) => {
            assert_eq!(b.card_number, "4929000000006");
            assert_eq!(b.expiry_month, "03");
            assert_eq!(b.expiry_year, "2030");
            assert_eq!(b.security_code, "123");
        }
        other => panic!("unexpected body: {:?}", other),
    }
}

#[test]
fn payments_response_maps_statuses() {
    let out = handle_payments_response(
        authorize_attempt(),
        OpayoPaymentsResponse {
            transaction_id: String::from("T-1"),
            status: OpayoPaymentStatus::Succeeded,
        },
    );
    assert_eq!(out.status, AttemptStatus::Charged);
    match out.response {
        Some(Ok(PaymentsResponseData::TransactionResponse { resource_id, redirection_data, .. })) => {
            assert!(matches!(resource_id, ResponseId::ConnectorTransactionId(ref t) if t == "T-1"));
            assert!(redirection_data.is_none());
        }
        other => panic!("unexpected response slot: {:?}", other),
    }
    let failed = handle_payments_response(
        authorize_attempt(),
        OpayoPaymentsResponse {
            transaction_id: String::from("T-2"),
            status: OpayoPaymentStatus::NotAuthed,
        },
    );
    assert_eq!(failed.status, AttemptStatus::Failure);
}

#[test]
fn session_response_writes_session_token() {
    let nested = Opayo.pretask_session_token_request(&tokenize_attempt(None));
    let out = handle_session_response(
        nested,
        OpayoSessionResponse { merchant_session_key: String::from("msk-7") },
    );
    assert_eq!(out.session_token.as_deref(), Some("msk-7"));
    match out.response {
        Some(Ok(PaymentsResponseData::SessionTokenResponse { session_token })) => {
            assert_eq!(session_token, "msk-7");
        }
        other => panic!("unexpected response slot: {:?}", other),
    }
}

#[test]
fn pretask_shares_only_ids_and_credentials() {
    let outer = tokenize_attempt(None);
    let nested = Opayo.pretask_session_token_request(&outer);
    assert_eq!(nested.payment_id, "pay_9");
    assert_eq!(nested.connector_auth_type, body_key_auth());
    assert!(nested.response.is_none());
    assert!(nested.session_token.is_none());
}

#[test]
fn pretask_result_written_back_into_outer_attempt() {
    let mut outer = tokenize_attempt(None);
    Opayo.apply_pretask_result(&mut outer, Some(String::from("msk-7")));
    assert_eq!(outer.session_token.as_deref(), Some("msk-7"));
    assert_eq!(outer.payment_id, "pay_9");
    assert!(outer.response.is_none());
}

#[test]
fn card_identifier_response_becomes_token() {
    let out = handle_card_identifier_response(
        tokenize_attempt(Some(String::from("msk-1"))),
        OpayoCardIdentifierResponse { card_identifier: String::from("ci-42") },
    );
    match out.response {
        Some(Ok(PaymentsResponseData::TokenizationResponse { token })) => {
            assert_eq!(token, "ci-42");
        }
        other => panic!("unexpected response slot: {:?}", other),
    }
}

#[test]
fn opayo_refund_response_maps_statuses() {
    let attempt: RouterData<Execute, RefundsData, payment_switch::types::RefundsResponseData> =
        RouterData {
            flow: Execute,
            payment_id: String::from("pay_9"),
            status: AttemptStatus::Charged,
            request: RefundsData {
                refund_amount: 100,
                currency: Currency::GBP,
                reason: None,
                connector_transaction_id: String::from("txn-1"),
            },
            response: None,
            connector_auth_type: body_key_auth(),
            session_token: None,
            reference_id: None,
            connector_metadata: None,
        };
    let out = handle_refund_response(
        attempt,
        RefundResponse { transaction_id: String::from("R-1"), status: OpayoPaymentStatus::Succeeded },
    );
    match out.response {
        Some(Ok(d)) => {
            assert_eq!(d.connector_refund_id, "R-1");
            assert_eq!(d.refund_status, payment_switch::types::RefundStatus::Success);
        }
        other => panic!("unexpected response slot: {:?}", other),
    }
}

#[test]
fn connector_identity_and_content_type() {
    assert_eq!(Opayo.id(), "opayo");
    assert_eq!(Opayo.common_get_content_type(), "application/json");
    assert_eq!(Opayo.base_url(&connectors()), "https://pi-test.sagepay.example/api/v1/");
}
