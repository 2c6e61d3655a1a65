use open_router::feedback::elimination_v3::{
    get3DKeyForGatewaySelection, getKeyForGatewaySelection, getSrV3MerchantBucketSize, getStatus, initialMovingWindow,
    intercalate, intercalateWithoutEmptyString, keysNeedCreation, pendingTxnsKey, queueKey, scoreKey, srV3ScoreChange,
    srV3ScoreValue, srV3UpdateKeys, txnObjectTypeText, updateScoreAndQueue, SrV3KeyConfig, SrV3KeyInput, SrV3Window,
};
use open_router::feedback::types::{PaymentMethodType, SrV3DebugBlock, TxnObjectType};
use open_router::feedback::utils::GatewayScoringType;

fn s(x: &str) -> String {
    x.to_string()
}

fn v(xs: &[&str]) -> Vec<String> {
    xs.iter().map(|x| x.to_string()).collect()
}

fn card_input() -> SrV3KeyInput {
    SrV3KeyInput {
        merchant_id: s("m1"),
        gateway: s("PAYU"),
        payment_method_type: PaymentMethodType::CARD,
        txn_object_type: Some(TxnObjectType::ORDER_PAYMENT),
        payment_method: Some(s("VISA")),
        card_type: Some(s("CREDIT")),
        auth_type: Some(s("THREE_DS")),
        source_object: None,
        payment_source: None,
        card_bank_code: Some(s("HDFC")),
        psp_bank_code: None,
        gateway_reference_id: Some(s("ref1")),
    }
}

fn config() -> SrV3KeyConfig {
    SrV3KeyConfig {
        gateway_reference_id_enabled: false,
        auth_type_enabled: false,
        bank_level_enabled: false,
        psp_app_enabled: false,
        psp_package_enabled: false,
        top_banks: v(&["HDFC", "ICICI"]),
        upi_handles: v(&["OKAXIS", "YBL"]),
        upi_psps: v(&["JP_PHONEPE"]),
        upi_packages: v(&["COM.PHONEPE.APP"]),
    }
}

fn upi_input(source_object: &str, payment_source: Option<&str>) -> SrV3KeyInput {
    SrV3KeyInput {
        merchant_id: s("m1"),
        gateway: s("RAZORPAY"),
        payment_method_type: PaymentMethodType::UPI,
        txn_object_type: Some(TxnObjectType::ORDER_PAYMENT),
        payment_method: Some(s("UPI")),
        card_type: None,
        auth_type: None,
        source_object: Some(s(source_object)),
        payment_source: payment_source.map(s),
        card_bank_code: None,
        psp_bank_code: Some(s("JP_PHONEPE")),
        gateway_reference_id: None,
    }
}

#[test]
fn joining_pieces() {
    assert_eq!(intercalate('_', &v(&["a", "", "b"])), "a__b");
    assert_eq!(intercalate('_', &vec![]), "");
    assert_eq!(intercalateWithoutEmptyString('_', &v(&["", "a", "", "b", ""])), "a_b");
    assert_eq!(intercalateWithoutEmptyString('_', &v(&["", ""])), "");
    assert_eq!(txnObjectTypeText(TxnObjectType::TPV_EMANDATE_PAYMENT), "TPV_EMANDATE_PAYMENT");
}

#[test]
fn one_dimensional_keys() {
    let c = config();
    assert_eq!(getKeyForGatewaySelection(&card_input(), &c), "{gw_sr_v3_score_m1_ORDER_PAYMENT_CARD_VISA_CREDIT_PAYU");
    let mut with_ref = config();
    with_ref.gateway_reference_id_enabled = true;
    assert_eq!(
        getKeyForGatewaySelection(&card_input(), &with_ref),
        "{gw_sr_v3_score_m1_ORDER_PAYMENT_CARD_VISA_CREDIT_ref1_PAYU"
    );
    let mut no_ref = card_input();
    no_ref.gateway_reference_id = None;
    no_ref.txn_object_type = None;
    assert_eq!(getKeyForGatewaySelection(&no_ref, &with_ref), "{gw_sr_v3_score_m1_CARD_VISA_CREDIT_NULL_PAYU");
    assert_eq!(
        getKeyForGatewaySelection(&upi_input("UPI_COLLECT", None), &c),
        "{gw_sr_v3_score_m1_ORDER_PAYMENT_UPI_UPI_RAZORPAY"
    );
    let mut intent = upi_input("UPI_PAY", None);
    intent.payment_method = Some(s("GPAY"));
    assert_eq!(getKeyForGatewaySelection(&intent, &c), "{gw_sr_v3_score_m1_ORDER_PAYMENT_UPI_UPI_PAY_RAZORPAY");
    let mut nb = card_input();
    nb.payment_method_type = PaymentMethodType::NB;
    nb.payment_method = Some(s("NB_HDFC"));
    assert_eq!(getKeyForGatewaySelection(&nb, &c), "{gw_sr_v3_score_m1_ORDER_PAYMENT_NB_NB_HDFC_PAYU");
}

#[test]
fn three_dimensional_card_keys() {
    let mut c = config();
    assert_eq!(get3DKeyForGatewaySelection(&card_input(), &c), "{gw_sr_v3_score_m1_ORDER_PAYMENT_CARD_VISA_CREDIT_PAYU");
    c.bank_level_enabled = true;
    assert_eq!(
        get3DKeyForGatewaySelection(&card_input(), &c),
        "{gw_sr_v3_score_m1_ORDER_PAYMENT_CARD_VISA_CREDIT_HDFC_PAYU"
    );
    let mut other_bank = card_input();
    other_bank.card_bank_code = Some(s("KOTAK"));
    assert_eq!(get3DKeyForGatewaySelection(&other_bank, &c), "{gw_sr_v3_score_m1_ORDER_PAYMENT_CARD_VISA_CREDIT_PAYU");
    c.auth_type_enabled = true;
    assert_eq!(
        get3DKeyForGatewaySelection(&card_input(), &c),
        "{gw_sr_v3_score_m1_ORDER_PAYMENT_CARD_VISA_CREDIT_THREE_DS_PAYU"
    );
}

#[test]
fn three_dimensional_upi_keys() {
    let mut c = config();
    assert_eq!(
        get3DKeyForGatewaySelection(&upi_input("UPI_COLLECT", Some("someone@okaxis")), &c),
        "{gw_sr_v3_score_m1_ORDER_PAYMENT_UPI_UPI_COLLECT_OKAXIS_RAZORPAY"
    );
    assert_eq!(
        get3DKeyForGatewaySelection(&upi_input("COLLECT", Some("someone@unknown")), &c),
        "{gw_sr_v3_score_m1_ORDER_PAYMENT_UPI_COLLECT_RAZORPAY"
    );
    assert_eq!(
        get3DKeyForGatewaySelection(&upi_input("UPI_PAY", Some("com.phonepe.app")), &c),
        "{gw_sr_v3_score_m1_ORDER_PAYMENT_UPI_UPI_PAY_RAZORPAY"
    );
    c.psp_package_enabled = true;
    assert_eq!(
        get3DKeyForGatewaySelection(&upi_input("UPI_PAY", Some("com.phonepe.app")), &c),
        "{gw_sr_v3_score_m1_ORDER_PAYMENT_UPI_UPI_PAY_COM.PHONEPE.APP_RAZORPAY"
    );
    c.psp_app_enabled = true;
    assert_eq!(
        get3DKeyForGatewaySelection(&upi_input("PAY", None), &c),
        "{gw_sr_v3_score_m1_ORDER_PAYMENT_UPI_PAY_JP_PHONEPE_RAZORPAY"
    );
    assert_eq!(
        get3DKeyForGatewaySelection(&upi_input("UPI_QR", None), &c),
        "{gw_sr_v3_score_m1_ORDER_PAYMENT_UPI_UPI_QR_RAZORPAY"
    );
}

#[test]
fn one_key_outside_card_and_upi() {
    let c = config();
    let mut nb = card_input();
    nb.payment_method_type = PaymentMethodType::WALLET;
    let k1 = getKeyForGatewaySelection(&nb, &c);
    let k3 = get3DKeyForGatewaySelection(&nb, &c);
    assert_eq!(k1, k3);
    assert_eq!(srV3UpdateKeys(&None, &nb.payment_method_type, k1.clone(), k3), vec![k1]);
}

#[test]
fn keys_an_outcome_updates() {
    let card = PaymentMethodType::CARD;
    assert_eq!(srV3UpdateKeys(&None, &card, s("k1"), s("k3")), v(&["k1", "k3"]));
    assert_eq!(srV3UpdateKeys(&None, &card, s("k1"), s("k1")), v(&["k1"]));
    assert_eq!(srV3UpdateKeys(&Some(s("u")), &card, s("k1"), s("k3")), v(&["u"]));
    assert_eq!(srV3UpdateKeys(&None, &PaymentMethodType::NB, s("k1"), s("k3")), v(&["k1"]));
    assert_eq!(queueKey("k"), "k__queue");
    assert_eq!(scoreKey("k"), "k__score");
    assert_eq!(pendingTxnsKey("m1"), "PENDING_TXNS_m1");
}

fn block(status: &str) -> SrV3DebugBlock {
    SrV3DebugBlock {
        txn_uuid: s("u"),
        order_id: s("o"),
        date_created: s("d"),
        current_time: s("t"),
        txn_status: s(status),
    }
}

#[test]
fn window_outcomes_move_the_score() {
    assert_eq!(srV3ScoreValue(GatewayScoringType::REWARD), (s("1"), true));
    assert_eq!(srV3ScoreValue(GatewayScoringType::PENALISE_SRV3), (s("0"), false));
    assert_eq!(srV3ScoreValue(GatewayScoringType::PENALISE), (s("0"), false));
    assert_eq!(getStatus(Some(block("1")), s("raw")), "1");
    assert_eq!(getStatus(None, s("raw")), "raw");
    assert_eq!(srV3ScoreChange(GatewayScoringType::REWARD, None, s("1")), None);
    assert_eq!(srV3ScoreChange(GatewayScoringType::REWARD, None, s("0")), Some(true));
    assert_eq!(srV3ScoreChange(GatewayScoringType::PENALISE_SRV3, None, s("1")), Some(false));
    assert_eq!(srV3ScoreChange(GatewayScoringType::PENALISE_SRV3, Some(Some(block("0"))), s("{}")), None);
    assert_eq!(srV3ScoreChange(GatewayScoringType::REWARD, Some(Some(block("0"))), s("{}")), Some(true));
    assert_eq!(srV3ScoreChange(GatewayScoringType::REWARD, Some(None), s("1")), None);
}

#[test]
fn window_setup() {
    assert!(keysNeedCreation(false, true));
    assert!(keysNeedCreation(true, false));
    assert!(!keysNeedCreation(true, true));
    assert_eq!(getSrV3MerchantBucketSize(Some(50), Some(80)), 50);
    assert_eq!(getSrV3MerchantBucketSize(None, Some(80)), 80);
    assert_eq!(getSrV3MerchantBucketSize(None, None), 125);
    assert_eq!(initialMovingWindow(3), v(&["1", "1", "1"]));
    assert!(initialMovingWindow(0).is_empty());
}

#[test]
fn moving_window_keeps_its_count() {
    let mut w = SrV3Window::new(3);
    assert_eq!(w.outcomes(), &v(&["1", "1", "1"]));
    assert_eq!(w.score(), 3);
    assert_eq!(updateScoreAndQueue(&mut w, GatewayScoringType::PENALISE_SRV3), "1");
    assert_eq!(w.outcomes(), &v(&["1", "1", "0"]));
    assert_eq!(w.score(), 2);
    assert_eq!(updateScoreAndQueue(&mut w, GatewayScoringType::REWARD), "1");
    assert_eq!(w.outcomes(), &v(&["1", "0", "1"]));
    assert_eq!(w.score(), 2);
    updateScoreAndQueue(&mut w, GatewayScoringType::PENALISE);
    updateScoreAndQueue(&mut w, GatewayScoringType::PENALISE);
    updateScoreAndQueue(&mut w, GatewayScoringType::PENALISE);
    assert_eq!(w.outcomes(), &v(&["0", "0", "0"]));
    assert_eq!(w.score(), 0);
    assert_eq!(updateScoreAndQueue(&mut w, GatewayScoringType::REWARD), "0");
    assert_eq!(w.score(), 1);
    for _ in 0..10 {
        updateScoreAndQueue(&mut w, GatewayScoringType::REWARD);
        assert_eq!(w.score() as usize, w.outcomes().iter().filter(|o| o.as_str() == "1").count());
        assert_eq!(w.outcomes().len(), 3);
    }
}

#[test]
fn empty_moving_window_gives_back_the_outcome() {
    let mut w = SrV3Window::new(0);
    assert_eq!(updateScoreAndQueue(&mut w, GatewayScoringType::REWARD), "1");
    assert!(w.outcomes().is_empty());
    assert_eq!(w.score(), 0);
    assert_eq!(updateScoreAndQueue(&mut w, GatewayScoringType::PENALISE), "0");
    assert!(w.outcomes().is_empty());
    assert_eq!(w.score(), 0);
}
