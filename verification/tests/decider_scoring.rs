use open_router::decider::failure_reason::{failureReasonFor, getDeciderFailureReason, getValidationType, FailureReasonFacts};
use open_router::decider::gw_scoring::{
    construct_dimension_key, construct_n_key, eliminationResetApproach, shouldResetGatewayScore, construct_sr1_key, downtimeOutcome, eliminationPaymentMethod,
    filter_inputs_upto, filter_using_service_config, globalEliminationOccurred, isMerchantEnabledGlobally,
    isSrEnabledForPaymentMethodType, merchantEliminationOccurred, samePaymentMethodType, srEliminationApproachInfo,
    srV3ScoringDecision, text_to_int, DimensionRecord, ScoreSource, SrV3ScoringDecision, checkSrGlobalRoutingDefaults,
    globalDefault, GlobalDefaultsRefusal, GlobalDefaultsSource, GlobalLevelFlags,
};
use open_router::decider::runner::{
    checkAndUpdatePlFailureReason, fallbackLogicId, fallbackRunNeeded, get_priority_logic_script, handle_fallback_logic,
    isRetryableFailure, plClientErrorOutcome, priorityLogicStep, PlAction, PlClientErrorKind, PlConfigIds, PlEvent,
    PlFailureReason, PlLogicRecord, PlLogicRecords, PlScriptSource, PlStage, PlStatus,
};
use open_router::decider::types::{DebugFilterEntry, DownTime, FilterLevel, GatewayDeciderApproach, ResetApproach};
use open_router::feedback::types::PaymentMethodType;

fn s(x: &str) -> String {
    x.to_string()
}

fn v(xs: &[&str]) -> Vec<String> {
    xs.iter().map(|x| x.to_string()).collect()
}

fn facts() -> FailureReasonFacts {
    FailureReasonFacts {
        reference_ids: s("[\"r1\"]"),
        currency: s("INR"),
        card_brand: Some(s("VISA")),
        auth_type: None,
        validation_type: Some(s("TPV")),
        emi_type: None,
        emi_bank: Some(s("HDFC")),
        is_card_txn: true,
        is_emi: true,
        bin_eligible_for_emi: true,
        stored_card_vault_provider: None,
        payment_method: s("VISA"),
        vault_provider: None,
        is_wallet_card: false,
        is_nb_card: false,
        is_reward_card: false,
        payment_method_type: PaymentMethodType::CARD,
        is_google_pay_txn: false,
        txn_type: None,
        txn_detail_type: s("ORDER_PAYMENT"),
        is_cvv_less_txn: false,
        is_moto_auth: false,
        is_token_repeat_txn: false,
        txn_gateway: None,
        order_preferred_gateway: Some(s("PAYU")),
        payment_flows: vec![],
    }
}

fn entry(name: &str, gws: &[&str]) -> DebugFilterEntry {
    DebugFilterEntry { filterName: s(name), gateways: v(gws) }
}

#[test]
fn validation_types() {
    assert_eq!(getValidationType(true, true, false, false, false), Some(s("CARD_MANDATE")));
    assert_eq!(getValidationType(false, false, false, true, true), Some(s("TPV_EMANDATE")));
    assert_eq!(getValidationType(false, false, false, true, false), Some(s("EMANDATE")));
    assert_eq!(getValidationType(false, false, true, false, false), Some(s("TPV")));
    assert_eq!(getValidationType(true, false, false, false, false), None);
}

#[test]
fn failure_reason_names_first_emptied_filter() {
    let list = vec![
        entry("getFunctionalGateways", &["PAYU", "HDFC"]),
        entry("filterFunctionalGatewaysForCurrency", &[]),
        entry("filterFunctionalGatewaysForBrand", &[]),
    ];
    assert_eq!(
        getDeciderFailureReason(&list, &facts()),
        "No functional gateways after filtering for currency INR"
    );
}

#[test]
fn failure_reason_without_emptied_filter_is_general() {
    let list = vec![entry("getFunctionalGateways", &["PAYU"]), entry("filterFunctionalGatewaysForBrand", &["PAYU"])];
    assert_eq!(getDeciderFailureReason(&list, &facts()), "No functional gateways supporting this transaction.");
    assert_eq!(getDeciderFailureReason(&vec![], &facts()), "No functional gateways supporting this transaction.");
}

#[test]
fn failure_reason_for_preferred_gateway() {
    let configured = vec![entry("getFunctionalGateways", &["PAYU"]), entry("preferredGateway", &[])];
    assert_eq!(getDeciderFailureReason(&configured, &facts()), "PAYU is not supporting this transaction.");
    let not_configured = vec![entry("getFunctionalGateways", &["HDFC"]), entry("preferredGateway", &[])];
    assert_eq!(getDeciderFailureReason(&not_configured, &facts()), "PAYU is not configured.");
    let mut f = facts();
    f.txn_gateway = Some(s("HDFC"));
    assert_eq!(getDeciderFailureReason(&not_configured, &f), "HDFC is not supporting this transaction.");
    f.txn_gateway = None;
    f.order_preferred_gateway = None;
    assert_eq!(getDeciderFailureReason(&not_configured, &f), "No functional gateways supporting this transaction.");
}

#[test]
fn failure_reasons_by_filter() {
    let f = facts();
    let none: Vec<String> = vec![];
    assert_eq!(
        failureReasonFor("getFunctionalGateways", &f, &none),
        "No gateways are configured with the referenceIds [\"r1\"] to proceed transaction"
    );
    assert_eq!(failureReasonFor("filterFunctionalGatewaysForBrand", &f, &none), "No functional gateways after filtering for brand VISA");
    assert_eq!(failureReasonFor("filterFunctionalGatewaysForAuthType", &f, &none), "No functional gateways after filtering for authType ");
    assert_eq!(
        failureReasonFor("filterFunctionalGatewaysForValidationType", &f, &none),
        "No functional gateways after filtering for validationType TPV"
    );
    assert_eq!(
        failureReasonFor("filterFunctionalGatewaysForEmi", &f, &none),
        "No functional gateways supporting HDFC card emi  transaction."
    );
    assert_eq!(
        failureReasonFor("filterFunctionalGatewaysForPaymentMethod", &f, &none),
        "No functional gateways supporting VISA payment method."
    );
    assert_eq!(
        failureReasonFor("filterFunctionalGatewaysForTokenProvider", &f, &none),
        "No functional gateways supporting Juspay saved cards."
    );
    assert_eq!(
        failureReasonFor("filterFunctionalGatewaysForWallet", &f, &none),
        "Gateways configured supports only wallet transaction."
    );
    assert_eq!(
        failureReasonFor("filterFunctionalGatewaysForNbOnly", &f, &none),
        "Gateways configured supports only Net Banking transaction."
    );
    assert_eq!(
        failureReasonFor("filterFunctionalGatewaysForConsumerFinance", &f, &none),
        "Gateways configured supports only Consumer Finance transaction."
    );
    assert_eq!(
        failureReasonFor("filterFunctionalGatewaysForUpi", &f, &none),
        "Gateways configured supports only UPI transaction."
    );
    assert_eq!(failureReasonFor("filterFunctionalGatewaysForTxnType", &f, &none), "No functional gateways");
    assert_eq!(
        failureReasonFor("filterFunctionalGatewaysForTxnDetailType", &f, &none),
        "No functional gateways supporting ORDER_PAYMENT transaction."
    );
    assert_eq!(
        failureReasonFor("filterFunctionalGatewaysForReward", &f, &none),
        "Gateways configured supports only Reward transaction."
    );
    assert_eq!(
        failureReasonFor("filterFunctionalGatewaysForCash", &f, &none),
        "Gateways configured supports only CASH transaction."
    );
    assert_eq!(
        failureReasonFor("filterFunctionalGatewaysForSplitSettlement", &f, &none),
        "No functional gateways after validating split."
    );
    assert_eq!(
        failureReasonFor("filterFunctionalGatewaysForOTMFlow", &f, &none),
        "No functional gateways after filtering for OTM flow."
    );
    assert_eq!(failureReasonFor("filterFunctionalGateways", &f, &none), "No functional gateways supporting transaction.");
    assert_eq!(
        failureReasonFor("filterEnforcement", &f, &none),
        "Priority logic enforced gateways are not supporting this transaction."
    );
    assert_eq!(
        failureReasonFor("filterFunctionalGatewaysForMerchantRequiredFlow", &f, &none),
        "No functional gateways after filtering for Merchant requested payment flows "
    );
    assert_eq!(
        failureReasonFor("filterGatewaysForMGASelectionIntegrity", &f, &none),
        "Conflicting configurations found or no functional gateways supporting this transaction"
    );
    assert_eq!(
        failureReasonFor("filterGatewaysForEMITenureSpecficGatewayCreds", &f, &none),
        "No functional gateways supporting for emi."
    );
    assert_eq!(
        failureReasonFor("FilterFunctionalGatewaysForReversePennyDrop", &f, &none),
        "No functional gateways after filtering for Reverse Penny Drop transaction "
    );
    assert_eq!(failureReasonFor("somethingElse", &f, &none), "No functional gateways supporting this transaction.");
}

#[test]
fn failure_reasons_that_depend_on_the_transaction() {
    let none: Vec<String> = vec![];
    let mut f = facts();
    f.is_emi = false;
    assert_eq!(failureReasonFor("filterFunctionalGatewaysForEmi", &f, &none), "Gateways configured supports only emi transaction.");
    f.is_emi = true;
    f.bin_eligible_for_emi = false;
    assert_eq!(failureReasonFor("filterFunctionalGatewaysForEmi", &f, &none), "Bin doesn't support emi transaction.");
    f.is_card_txn = false;
    f.emi_type = Some(s("NO_COST_EMI"));
    f.stored_card_vault_provider = Some(s("Juspay"));
    assert_eq!(
        failureReasonFor("filterFunctionalGatewaysForEmi", &f, &none),
        "No functional gateways supporting HDFC juspay no_cost_emi  transaction."
    );

    let mut g = facts();
    g.is_cvv_less_txn = true;
    g.is_moto_auth = true;
    assert_eq!(
        failureReasonFor("filterFunctionalGateways", &g, &none),
        "No functional gateways supporting cvv less card  repeat moto transaction."
    );
    g.is_moto_auth = false;
    assert_eq!(
        failureReasonFor("filterFunctionalGateways", &g, &none),
        "No functional gateways supporting cvv less card  transaction."
    );
    g.is_cvv_less_txn = false;
    g.is_token_repeat_txn = true;
    assert_eq!(failureReasonFor("filterFunctionalGateways", &g, &none), "No functional gateways supporting card  transaction.");

    let mut u = facts();
    u.payment_method_type = PaymentMethodType::UPI;
    assert_eq!(failureReasonFor("filterFunctionalGatewaysForUpi", &u, &none), "No functional gateways supporting UPI transaction.");
    u.payment_method_type = PaymentMethodType::WALLET;
    u.is_google_pay_txn = true;
    assert_eq!(failureReasonFor("filterFunctionalGatewaysForUpi", &u, &none), "No functional gateways");
    u.is_wallet_card = true;
    assert_eq!(
        failureReasonFor("filterFunctionalGatewaysForWallet", &u, &none),
        "No functional gateways supporting wallet transaction."
    );
    u.payment_method_type = PaymentMethodType::REWARD;
    assert_eq!(
        failureReasonFor("filterFunctionalGatewaysForReward", &u, &none),
        "No functional gateways supporting Reward transaction."
    );
    u.txn_type = Some(s("MANDATE"));
    assert_eq!(
        failureReasonFor("filterFunctionalGatewaysForTxnType", &u, &none),
        "No functional gateways supporting MANDATE transaction."
    );
    u.payment_flows = v(&["CROSS_BORDER_PAYMENT", "SINGLE_BLOCK_MULTIPLE_DEBIT"]);
    assert_eq!(
        failureReasonFor("filterFunctionalGatewaysForMerchantRequiredFlow", &u, &none),
        "No functional gateways after filtering for Cross Border transaction flow"
    );
    u.payment_flows = v(&["SINGLE_BLOCK_MULTIPLE_DEBIT", "MUTUAL_FUND"]);
    assert_eq!(
        failureReasonFor("filterFunctionalGatewaysForMerchantRequiredFlow", &u, &none),
        "No functional gateways after filtering for Mutual Fund transaction flow"
    );
}

#[test]
fn score_keys() {
    assert_eq!(construct_sr1_key("m1"), "sr1_m1");
    assert_eq!(construct_n_key("m1"), "n_m1");
    let pmt = s("CARD");
    let tot = s("ORDER_PAYMENT");
    assert_eq!(construct_dimension_key(FilterLevel::TxnObjectType, &pmt, &Some(s("VISA")), &tot), Some(s("CARD|VISA|ORDER_PAYMENT")));
    assert_eq!(construct_dimension_key(FilterLevel::PaymentMethod, &pmt, &Some(s("VISA")), &tot), Some(s("CARD|VISA")));
    assert_eq!(construct_dimension_key(FilterLevel::PaymentMethodType, &pmt, &None, &tot), Some(s("CARD")));
    assert_eq!(construct_dimension_key(FilterLevel::PaymentMethod, &pmt, &None, &tot), None);
    assert_eq!(text_to_int(Some(s("42"))), Some(42));
    assert_eq!(text_to_int(Some(s("x"))), None);
    assert_eq!(text_to_int(None), None);
}

fn rec(pmt: &str, pm: Option<&str>, tot: Option<&str>) -> DimensionRecord {
    DimensionRecord { payment_method_type: s(pmt), payment_method: pm.map(s), txn_object_type: tot.map(s) }
}

#[test]
fn records_are_matched_by_level() {
    let records = vec![
        rec("CARD", None, None),
        rec("CARD", Some("VISA"), None),
        rec("CARD", Some("VISA"), Some("ORDER_PAYMENT")),
        rec("CARD", Some("VISA"), Some("ORDER_PAYMENT")),
    ];
    let pmt = s("CARD");
    let pm = Some(s("VISA"));
    let tot = s("ORDER_PAYMENT");
    assert_eq!(filter_inputs_upto(FilterLevel::TxnObjectType, &pmt, &pm, &tot, &records), Some(2));
    assert_eq!(filter_inputs_upto(FilterLevel::PaymentMethod, &pmt, &pm, &tot, &records), Some(1));
    assert_eq!(filter_inputs_upto(FilterLevel::PaymentMethodType, &pmt, &pm, &tot, &records), Some(0));
    assert_eq!(filter_inputs_upto(FilterLevel::PaymentMethod, &pmt, &None, &tot, &records), None);
    assert_eq!(filter_inputs_upto(FilterLevel::PaymentMethodType, &s("UPI"), &pm, &tot, &records), None);
}

#[test]
fn service_config_cascade_prefers_the_most_specific_level() {
    let inputs = vec![rec("CARD", None, None), rec("CARD", Some("VISA"), Some("ORDER_PAYMENT"))];
    let configs = vec![rec("CARD", Some("VISA"), None), rec("CARD", None, None)];
    let pmt = s("CARD");
    let pm = Some(s("VISA"));
    let tot = s("ORDER_PAYMENT");
    assert_eq!(filter_using_service_config(&pmt, &pm, &tot, &inputs, &configs), Some((FilterLevel::PaymentMethodType, 0, 1)));
    let configs2 = vec![rec("CARD", Some("VISA"), Some("ORDER_PAYMENT"))];
    assert_eq!(filter_using_service_config(&pmt, &pm, &tot, &inputs, &configs2), Some((FilterLevel::TxnObjectType, 1, 0)));
    assert_eq!(filter_using_service_config(&s("NB"), &pm, &tot, &inputs, &configs), None);
}

#[test]
fn elimination_payment_method() {
    let so = Some(s("UPI_COLLECT"));
    assert_eq!(eliminationPaymentMethod(&PaymentMethodType::UPI, &s("UPI"), &so), so);
    assert_eq!(eliminationPaymentMethod(&PaymentMethodType::UPI, &s("GPAY"), &so), Some(s("GPAY")));
    assert_eq!(eliminationPaymentMethod(&PaymentMethodType::CARD, &s("UPI"), &so), Some(s("UPI")));
}

#[test]
fn payment_method_types_enabled_for_sr() {
    assert!(samePaymentMethodType(&PaymentMethodType::UNKNOWN(s("X")), &PaymentMethodType::UNKNOWN(s("X"))));
    assert!(!samePaymentMethodType(&PaymentMethodType::UNKNOWN(s("CARD")), &PaymentMethodType::CARD));
    assert!(isSrEnabledForPaymentMethodType(&vec![], &PaymentMethodType::CARD));
    assert!(isSrEnabledForPaymentMethodType(&vec![PaymentMethodType::UPI, PaymentMethodType::CARD], &PaymentMethodType::CARD));
    assert!(!isSrEnabledForPaymentMethodType(&vec![PaymentMethodType::UPI], &PaymentMethodType::CARD));
    assert!(isMerchantEnabledGlobally(None));
    assert!(isMerchantEnabledGlobally(Some(true)));
    assert!(!isMerchantEnabledGlobally(Some(false)));
}

#[test]
fn elimination_outcomes() {
    assert!(globalEliminationOccurred(&Some(s("A")), &Some(s("B"))));
    assert!(globalEliminationOccurred(&Some(s("A")), &None));
    assert!(!globalEliminationOccurred(&Some(s("A")), &Some(s("A"))));
    assert!(!globalEliminationOccurred(&None, &Some(s("A"))));
    assert!(merchantEliminationOccurred(&Some(s("A")), &Some(s("B"))));
    assert!(!merchantEliminationOccurred(&Some(s("A")), &None));
    assert_eq!(srEliminationApproachInfo(true, true, true), v(&["GATEWAY", "MERCHANT", "GLOBAL"]));
    assert_eq!(srEliminationApproachInfo(false, true, false), v(&["MERCHANT"]));
    assert_eq!(srEliminationApproachInfo(false, false, false), Vec::<String>::new());
}

#[test]
fn downtime_classification() {
    assert_eq!(downtimeOutcome(3, 3, false, true, true), (ScoreSource::Evaluated, DownTime::ALL_DOWNTIME, false));
    assert_eq!(downtimeOutcome(3, 3, false, true, false), (ScoreSource::Initial, DownTime::ALL_DOWNTIME, false));
    assert_eq!(downtimeOutcome(3, 3, true, false, false), (ScoreSource::Evaluated, DownTime::ALL_DOWNTIME, true));
    assert_eq!(downtimeOutcome(1, 1, true, true, true), (ScoreSource::Evaluated, DownTime::GLOBAL_DOWNTIME, true));
    assert_eq!(downtimeOutcome(1, 3, false, true, true), (ScoreSource::Evaluated, DownTime::DOWNTIME, true));
    assert_eq!(downtimeOutcome(0, 3, false, true, true), (ScoreSource::Evaluated, DownTime::NO_DOWNTIME, true));
}

#[test]
fn sr_v3_scoring_decisions() {
    assert_eq!(srV3ScoringDecision(0, true, true, true), None);
    assert_eq!(
        srV3ScoringDecision(2, true, true, true),
        Some(SrV3ScoringDecision { approach: GatewayDeciderApproach::SR_V3_HEDGING, route_random_traffic: false, track_for_debug: true })
    );
    assert_eq!(
        srV3ScoringDecision(2, false, true, true),
        Some(SrV3ScoringDecision {
            approach: GatewayDeciderApproach::SR_SELECTION_V3_ROUTING,
            route_random_traffic: false,
            track_for_debug: false
        })
    );
    assert_eq!(
        srV3ScoringDecision(1, false, false, true),
        Some(SrV3ScoringDecision {
            approach: GatewayDeciderApproach::SR_SELECTION_V3_ROUTING,
            route_random_traffic: true,
            track_for_debug: false
        })
    );
}

#[test]
fn score_resets() {
    assert!(shouldResetGatewayScore(100, Some(50_000), 40_000));
    assert!(!shouldResetGatewayScore(100, Some(60_000), 40_000));
    assert!(!shouldResetGatewayScore(100, None, 0));
    assert_eq!(
        eliminationResetApproach(ResetApproach::SRV2_RESET),
        ResetApproach::SRV2_ELIMINATION_RESET
    );
    assert_eq!(
        eliminationResetApproach(ResetApproach::SRV3_RESET),
        ResetApproach::SRV3_ELIMINATION_RESET
    );
    assert_eq!(
        eliminationResetApproach(ResetApproach::NO_RESET),
        ResetApproach::ELIMINATION_RESET
    );
}

#[test]
fn sr_v3_success_counts() {
    assert_eq!(open_router::decider::gw_scoring::srV3SuccessCount(Some(s("40")), 125), 40);
    assert_eq!(open_router::decider::gw_scoring::srV3SuccessCount(Some(s("x")), 125), 125);
    assert_eq!(open_router::decider::gw_scoring::srV3SuccessCount(None, 125), 125);
}

#[test]
fn global_routing_defaults() {
    let on = GlobalLevelFlags { level_not_none: true, forced_payment_method: false };
    let off = GlobalLevelFlags { level_not_none: false, forced_payment_method: false };
    let forced = GlobalLevelFlags { level_not_none: true, forced_payment_method: true };
    assert_eq!(checkSrGlobalRoutingDefaults(Some(on), Some(on)), Ok(GlobalDefaultsSource::MerchantOverGlobal));
    assert_eq!(checkSrGlobalRoutingDefaults(Some(off), Some(forced)), Ok(GlobalDefaultsSource::MerchantOverGlobal));
    assert_eq!(checkSrGlobalRoutingDefaults(Some(off), Some(on)), Err(GlobalDefaultsRefusal::BothPresent));
    assert_eq!(checkSrGlobalRoutingDefaults(Some(on), None), Ok(GlobalDefaultsSource::Global));
    assert_eq!(checkSrGlobalRoutingDefaults(Some(off), None), Err(GlobalDefaultsRefusal::OnlyGlobal));
    assert_eq!(checkSrGlobalRoutingDefaults(None, Some(forced)), Ok(GlobalDefaultsSource::Merchant));
    assert_eq!(checkSrGlobalRoutingDefaults(None, Some(on)), Err(GlobalDefaultsRefusal::OnlyMerchant));
    assert_eq!(checkSrGlobalRoutingDefaults(None, None), Err(GlobalDefaultsRefusal::NotPresent));
    assert_eq!(globalDefault(Some(3), Some(5)), Some(3));
    assert_eq!(globalDefault(None, Some(5)), Some(5));
    assert_eq!(globalDefault::<i32>(None, None), None);
}

#[test]
fn priority_logic_evaluation_steps() {
    assert_eq!(priorityLogicStep(PlStage::Primary, PlEvent::Evaluated), (PlStage::Decided, PlAction::UseResult));
    assert_eq!(
        priorityLogicStep(PlStage::Primary, PlEvent::Failed(PlFailureReason::CONNECTION_FAILED)),
        (PlStage::Retry, PlAction::EvaluateAgain)
    );
    assert_eq!(
        priorityLogicStep(PlStage::Primary, PlEvent::Failed(PlFailureReason::RESPONSE_PARSE_ERROR)),
        (PlStage::Fallback, PlAction::RunFallback)
    );
    assert_eq!(
        priorityLogicStep(PlStage::Retry, PlEvent::Failed(PlFailureReason::CONNECTION_FAILED)),
        (PlStage::Fallback, PlAction::RunFallback)
    );
    assert_eq!(priorityLogicStep(PlStage::Retry, PlEvent::Evaluated), (PlStage::Decided, PlAction::UseResult));
    assert_eq!(priorityLogicStep(PlStage::Fallback, PlEvent::Evaluated), (PlStage::Decided, PlAction::UseFallbackOutcome));
    assert_eq!(priorityLogicStep(PlStage::Decided, PlEvent::Evaluated), (PlStage::Decided, PlAction::Nothing));
    let mut stage = PlStage::Primary;
    let mut steps = 0;
    while stage != PlStage::Decided {
        stage = priorityLogicStep(stage, PlEvent::Failed(PlFailureReason::CONNECTION_FAILED)).0;
        steps += 1;
    }
    assert_eq!(steps, 3);
}

#[test]
fn client_errors_of_the_script_evaluator() {
    assert_eq!(plClientErrorOutcome(PlClientErrorKind::ConnectionError), (PlFailureReason::CONNECTION_FAILED, "A connection error occurred."));
    assert_eq!(
        plClientErrorOutcome(PlClientErrorKind::UnreadableFailureResponse),
        (PlFailureReason::RESPONSE_PARSE_ERROR, "Failed to parse response")
    );
    assert_eq!(
        plClientErrorOutcome(PlClientErrorKind::DecodeFailure),
        (PlFailureReason::RESPONSE_DECODE_FAILURE, "Response decoding failed.")
    );
    assert_eq!(
        plClientErrorOutcome(PlClientErrorKind::InvalidContentTypeHeader),
        (PlFailureReason::RESPONSE_CONTENT_TYPE_NOT_SUPPORTED, "The response had an invalid content type header.")
    );
    assert!(isRetryableFailure(PlFailureReason::CONNECTION_FAILED));
    assert!(!isRetryableFailure(PlFailureReason::NULL_AFTER_ENFORCE));
}

fn pl_rec(name: &str, status: PlStatus, reason: PlFailureReason) -> PlLogicRecord {
    PlLogicRecord { name: Some(s(name)), status, failure_reason: reason }
}

#[test]
fn failure_reason_marks_a_record() {
    let ok = pl_rec("primary", PlStatus::SUCCESS, PlFailureReason::NO_ERROR);
    assert_eq!(
        checkAndUpdatePlFailureReason(Some(ok), PlFailureReason::NULL_AFTER_ENFORCE),
        Some(pl_rec("primary", PlStatus::FAILURE, PlFailureReason::NULL_AFTER_ENFORCE))
    );
    let same = pl_rec("primary", PlStatus::SUCCESS, PlFailureReason::NULL_AFTER_ENFORCE);
    assert_eq!(
        checkAndUpdatePlFailureReason(Some(same.clone()), PlFailureReason::NULL_AFTER_ENFORCE),
        Some(same)
    );
    assert_eq!(checkAndUpdatePlFailureReason(None, PlFailureReason::CONNECTION_FAILED), None);
}

#[test]
fn fallback_records_follow_the_run() {
    let primary_only = PlLogicRecords {
        primary: Some(pl_rec("primary", PlStatus::SUCCESS, PlFailureReason::NO_ERROR)),
        fallback: None,
        tag: Some(s("primary")),
    };
    assert!(fallbackRunNeeded(&primary_only));
    let ran = handle_fallback_logic(
        primary_only.clone(),
        PlFailureReason::NULL_AFTER_ENFORCE,
        Some((pl_rec("fb", PlStatus::SUCCESS, PlFailureReason::NO_ERROR), Some(s("fb")))),
    );
    assert_eq!(
        ran,
        PlLogicRecords {
            primary: Some(pl_rec("primary", PlStatus::FAILURE, PlFailureReason::NULL_AFTER_ENFORCE)),
            fallback: Some(pl_rec("fb", PlStatus::SUCCESS, PlFailureReason::NO_ERROR)),
            tag: Some(s("fb")),
        }
    );
    let no_fallback = handle_fallback_logic(primary_only, PlFailureReason::NULL_AFTER_ENFORCE, None);
    assert_eq!(
        no_fallback,
        PlLogicRecords {
            primary: Some(pl_rec("primary", PlStatus::FAILURE, PlFailureReason::NULL_AFTER_ENFORCE)),
            fallback: None,
            tag: Some(s("primary")),
        }
    );
    let both = PlLogicRecords {
        primary: Some(pl_rec("primary", PlStatus::FAILURE, PlFailureReason::CONNECTION_FAILED)),
        fallback: Some(pl_rec("fb", PlStatus::SUCCESS, PlFailureReason::NO_ERROR)),
        tag: Some(s("fb")),
    };
    assert!(!fallbackRunNeeded(&both));
    let marked = handle_fallback_logic(
        both,
        PlFailureReason::NULL_AFTER_ENFORCE,
        Some((pl_rec("other", PlStatus::SUCCESS, PlFailureReason::NO_ERROR), Some(s("other")))),
    );
    assert_eq!(
        marked,
        PlLogicRecords {
            primary: Some(pl_rec("primary", PlStatus::FAILURE, PlFailureReason::CONNECTION_FAILED)),
            fallback: Some(pl_rec("fb", PlStatus::FAILURE, PlFailureReason::NULL_AFTER_ENFORCE)),
            tag: Some(s("fb")),
        }
    );
}

#[test]
fn priority_logic_script_source() {
    let ids = PlConfigIds { active_logic: s("10"), staggered_logic: Some(s("20")), fallback_logic: Some(s("30")) };
    let cfg = Some(s("{...}"));
    assert_eq!(get_priority_logic_script(&cfg, Some(ids.clone()), true, "x"), PlScriptSource::LookUpLogic(s("20")));
    assert_eq!(get_priority_logic_script(&cfg, Some(ids.clone()), false, "x"), PlScriptSource::LookUpLogic(s("10")));
    let plain = PlConfigIds { active_logic: s("10"), staggered_logic: None, fallback_logic: None };
    assert_eq!(get_priority_logic_script(&cfg, Some(plain.clone()), true, ""), PlScriptSource::LookUpLogic(s("10")));
    assert_eq!(get_priority_logic_script(&cfg, None, true, ""), PlScriptSource::MerchantScript);
    assert_eq!(get_priority_logic_script(&Some(s("")), Some(plain), true, "  \n "), PlScriptSource::TenantConfig);
    assert_eq!(get_priority_logic_script(&None, None, false, " script "), PlScriptSource::MerchantScript);
    assert_eq!(get_priority_logic_script(&None, None, false, ""), PlScriptSource::TenantConfig);
    assert_eq!(fallbackLogicId(Some(ids)), Some(s("30")));
    assert_eq!(fallbackLogicId(None), None);
}
