use payment_switch::opayo::Opayo;
use payment_switch::orchestrator::CallConnectorAction;
use payment_switch::orchestrator::PreparedCall;
use payment_switch::orchestrator::apply_error_response;
use payment_switch::orchestrator::is_success_status;
use payment_switch::orchestrator::prepare_call;
use payment_switch::types::AttemptStatus;
use payment_switch::types::Authorize;
use payment_switch::types::Card;
use payment_switch::types::ConnectorAuthType;
use payment_switch::types::ConnectorError;
use payment_switch::types::ConnectorParams;
use payment_switch::types::Connectors;
use payment_switch::types::ErrorResponse;
use payment_switch::types::Method;
use payment_switch::types::PaymentMethodData;
use payment_switch::types::PaymentsAuthorizeData;
use payment_switch::types::PaymentsCancelData;
use payment_switch::types::PaymentsResponseData;
use payment_switch::types::RouterData;
use payment_switch::types::Void;
use payment_switch::currency::Currency;

fn connectors() -> Connectors {
    Connectors {
        airwallex: ConnectorParams { base_url: String::from("https://api.airwallex.example/") },
        opayo: ConnectorParams { base_url: String::from("https://pi-test.sagepay.example/api/v1/") },
    }
}

fn authorize_attempt() -> RouterData<Authorize, PaymentsAuthorizeData, PaymentsResponseData> {
    RouterData {
        flow: Authorize,
        payment_id: String::from("pay_1"),
        status: AttemptStatus::Pending,
        request: PaymentsAuthorizeData {
            amount: 500,
            currency: Currency::EUR,
            payment_method_data: PaymentMethodData::Card(Card {
                card_number: String::from("4242424242424242"),
                card_exp_month: String::from("01"),
                card_exp_year: String::from("2031"),
                card_cvc: String::from("000"),
            }),
            capture_method: None,
            complete_authorize_url: None,
        },
        response: None,
        connector_auth_type: ConnectorAuthType::BodyKey {
            api_key: String::from("user"),
            key1: String::from("pass"),
        },
        session_token: None,
        reference_id: None,
        connector_metadata: None,
    }
}

#[test]
fn replay_makes_no_call() {
    let out = prepare_call(&Opayo, &authorize_attempt(), &connectors(), CallConnectorAction::Avoid);
    assert!(matches!(out, Ok(PreparedCall::NoCall)));
}

#[test]
fn trigger_builds_one_descriptor() {
    let out =
        prepare_call(&Opayo, &authorize_attempt(), &connectors(), CallConnectorAction::Trigger);
    match out {
        Ok(PreparedCall::Call(request)) => {
            assert_eq!(request.method, Method::Post);
            assert_eq!(request.url, "https://pi-test.sagepay.example/api/v1/transactions");
            assert!(request.body.is_some());
        }
        other => panic!("unexpected outcome: {:?}", other),
    }
}

#[test]
fn unsupported_flow_surfaces_as_not_implemented() {
    let attempt: RouterData<Void, PaymentsCancelData, PaymentsResponseData> = RouterData {
        flow: Void,
        payment_id: String::from("pay_1"),
        status: AttemptStatus::Authorized,
        request: PaymentsCancelData {
            cancellation_reason: None,
            connector_transaction_id: String::from("txn-1"),
        },
        response: None,
        connector_auth_type: ConnectorAuthType::BodyKey {
            api_key: String::from("user"),
            key1: String::from("pass"),
        },
        session_token: None,
        reference_id: None,
        connector_metadata: None,
    };
    match prepare_call(&Opayo, &attempt, &connectors(), CallConnectorAction::Trigger) {
        Err(ConnectorError::NotImplemented(m)) => {
            assert_eq!(m, "flow not supported by connector");
        }
        other => panic!("unexpected outcome: {:?}", other),
    }
}

#[test]
fn construction_failure_aborts_without_mutation() {
    let mut attempt = authorize_attempt();
    attempt.connector_auth_type = ConnectorAuthType::HeaderKey { api_key: String::from("k") };
    match prepare_call(&Opayo, &attempt, &connectors(), CallConnectorAction::Trigger) {
        Err(ConnectorError::FailedToObtainAuthType) => {}
        other => panic!("unexpected outcome: {:?}", other),
    }
    assert!(attempt.response.is_none());
    assert_eq!(attempt.status, AttemptStatus::Pending);
}

#[test]
fn success_statuses_are_the_two_hundreds() {
    assert!(is_success_status(200));
    assert!(is_success_status(204));
    assert!(is_success_status(299));
    assert!(!is_success_status(199));
    assert!(!is_success_status(300));
    assert!(!is_success_status(404));
    assert!(!is_success_status(500));
}

#[test]
fn connector_error_sets_slot_and_keeps_status() {
    let error = ErrorResponse {
        status_code: 422,
        code: String::from("card_declined"),
        message: String::from("The card was declined."),
        reason: Some(String::from("insufficient funds")),
    };
    let out = apply_error_response(authorize_attempt(), error.clone());
    assert_eq!(out.status, AttemptStatus::Pending);
    match out.response {
        Some(Err(e)) => assert_eq!(e, error),
        other => panic!("unexpected response slot: {:?}", other),
    }
}

#[test]
fn opayo_error_body_is_normalized() {
    let err = Opayo.build_error_response(
        400,
        &payment_switch::opayo::OpayoErrorResponse {
            code: String::from("1003"),
            message: String::from("missing mandatory field"),
            reason: None,
        },
    );
    assert_eq!(err.status_code, 400);
    assert_eq!(err.code, "1003");
    assert_eq!(err.message, "missing mandatory field");
    assert!(err.reason.is_none());
}
