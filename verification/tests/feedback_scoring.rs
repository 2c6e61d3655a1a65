use open_router::feedback::gateway_elemination_scoring::{findMerchantIndex, keyScoreUpdate, merchantTransactionCount, KeyScoreUpdate};
use open_router::decider::types::{DetailedGatewayScoringType, RoutingFlowType, ScoreKeyType};
use open_router::feedback::gateway_elemination_scoring::{
    getAllUnifiedKeys, getDefaultTTL, getMerchantArrMaxLength, getTTLForKey, getTransactionCount, isGlobalKey,
    isGriEnabledForKey, isKeyOutage, merchantDetailsUpdate, readFromCacheWithFallback, safeRemainingTtl,
    scorePersistedPastTtl, ttlConfigKey, CacheName, MerchantDetailsUpdate,
};
use open_router::feedback::gateway_scoring_service::{
    checkExemptIfMandateTxn, isRoutingApproachInExplore, isRoutingApproachInSRV2, isRoutingApproachInSRV3,
    isTransactionPending, isUpdateWithinLatencyWindow, scoreUpdatePlan, txnFailureStates, txnSuccessStates,
    ScoreUpdatePlan,
};
use open_router::feedback::types::{defaultEnumDecodeT, defaultEnumEncodeT, MandateTxnType, PaymentMethodType, TxnObjectType, TxnStatus};
use open_router::feedback::utils::{
    cache_write_result, detailed_gateway_scoring_type, fromString, gatewayScoringTypeLogData, getDateTimeFormat, getTrueString, hush,
    isPennyMandateRegTxn, isPennyTxnType, dateInIST, getCurrentIstDateWithFormat,
    isMandateRegTxn, isRecurringTxn, isTrueString, mandateRegisterTxnObjectTypes, recurringTxnObjectTypes,
    textToAuthType, AuthType, GatewayScoringType,
};

fn s(x: &str) -> String {
    x.to_string()
}

#[test]
fn key_kinds() {
    assert!(isGlobalKey(ScoreKeyType::ELIMINATION_GLOBAL_KEY));
    assert!(isGlobalKey(ScoreKeyType::OUTAGE_GLOBAL_KEY));
    assert!(!isGlobalKey(ScoreKeyType::SR_V3_KEY));
    assert!(isKeyOutage(ScoreKeyType::OUTAGE_MERCHANT_KEY));
    assert!(!isKeyOutage(ScoreKeyType::ELIMINATION_MERCHANT_KEY));
}

#[test]
fn key_lifetimes() {
    assert_eq!(getDefaultTTL(ScoreKeyType::ELIMINATION_GLOBAL_KEY), 1800000);
    assert_eq!(getDefaultTTL(ScoreKeyType::ELIMINATION_MERCHANT_KEY), 9000000);
    assert_eq!(getTTLForKey(ScoreKeyType::OUTAGE_GLOBAL_KEY, None), 1800000);
    assert_eq!(getTTLForKey(ScoreKeyType::OUTAGE_GLOBAL_KEY, Some(60000)), 60000);
    assert_eq!(ttlConfigKey(ScoreKeyType::OUTAGE_GLOBAL_KEY), "gateway_score_global_outage_ttl");
    assert_eq!(ttlConfigKey(ScoreKeyType::OUTAGE_MERCHANT_KEY), "gateway_score_outage_ttl");
    assert_eq!(ttlConfigKey(ScoreKeyType::ELIMINATION_GLOBAL_KEY), "gateway_score_global_ttl");
    assert_eq!(getMerchantArrMaxLength(None), 40);
    assert_eq!(getMerchantArrMaxLength(Some(5)), 5);
}

#[test]
fn transaction_counts() {
    let m = ScoreKeyType::ELIMINATION_MERCHANT_KEY;
    assert_eq!(getTransactionCount(Some(4), ScoreKeyType::ELIMINATION_GLOBAL_KEY, GatewayScoringType::PENALISE), None);
    assert_eq!(getTransactionCount(None, m, GatewayScoringType::REWARD), Some(1));
    assert_eq!(getTransactionCount(Some(4), m, GatewayScoringType::PENALISE), Some(5));
    assert_eq!(getTransactionCount(Some(4), m, GatewayScoringType::REWARD), Some(4));
}

#[test]
fn cached_score_lifetimes() {
    assert!(scorePersistedPastTtl(100_000, 0, 100_000));
    assert!(!scorePersistedPastTtl(98_000, 0, 100_000));
    assert!(!scorePersistedPastTtl(99_000, 0, 100_000));
    assert_eq!(safeRemainingTtl(100_000, 30_000, 10_000), 80_000);
    assert_eq!(safeRemainingTtl(100_000, 10_000, 30_000), 100_000);
    assert_eq!(safeRemainingTtl(100_000, 99_500, 0), 100_000);
    assert_eq!(safeRemainingTtl(i64::MAX, i64::MAX, i64::MIN), i64::MAX);
}

#[test]
fn merchant_details_updates() {
    let ids = vec![s("m1"), s("m2")];
    let g = ScoreKeyType::ELIMINATION_GLOBAL_KEY;
    assert_eq!(merchantDetailsUpdate(ScoreKeyType::ELIMINATION_MERCHANT_KEY, Some(&ids), &s("m1"), 40), MerchantDetailsUpdate::NotKept);
    assert_eq!(merchantDetailsUpdate(g, None, &s("m1"), 40), MerchantDetailsUpdate::StartWithMerchant);
    assert_eq!(merchantDetailsUpdate(g, Some(&ids), &s("m2"), 2), MerchantDetailsUpdate::UpdateMerchant);
    assert_eq!(merchantDetailsUpdate(g, Some(&ids), &s("m3"), 2), MerchantDetailsUpdate::KeepFull);
    assert_eq!(merchantDetailsUpdate(g, Some(&ids), &s("m3"), 3), MerchantDetailsUpdate::AppendMerchant);
}

#[test]
fn cache_reads_fall_back() {
    let kv_only = |c: CacheName| if c == CacheName::KvRedis { Some(1) } else { None };
    assert_eq!(readFromCacheWithFallback(true, false, kv_only), Some(1));
    assert_eq!(readFromCacheWithFallback(false, false, kv_only), Some(1));
    assert_eq!(readFromCacheWithFallback(false, true, kv_only), None);
    let both = |c: CacheName| if c == CacheName::KvRedis { Some(1) } else { Some(2) };
    assert_eq!(readFromCacheWithFallback(false, false, both), Some(2));
    assert_eq!(CacheName::KvRedis.identifiers(), ("KVRedis", "KVRedis2"));
    assert_eq!(CacheName::EcRedis.identifiers(), ("ECRRedis", "ECRRedis2"));
}

#[test]
fn unified_keys() {
    assert!(isGriEnabledForKey(ScoreKeyType::ELIMINATION_MERCHANT_KEY, true, false));
    assert!(!isGriEnabledForKey(ScoreKeyType::ELIMINATION_MERCHANT_KEY, false, true));
    assert!(isGriEnabledForKey(ScoreKeyType::SR_V2_KEY, false, true));
    assert!(!isGriEnabledForKey(ScoreKeyType::ELIMINATION_GLOBAL_KEY, true, true));
    let keys = getAllUnifiedKeys([true, false, true, false], |t: ScoreKeyType| Some(format!("{:?}", t)));
    assert_eq!(
        keys,
        vec![
            (ScoreKeyType::ELIMINATION_GLOBAL_KEY, Some(s("ELIMINATION_GLOBAL_KEY"))),
            (ScoreKeyType::ELIMINATION_MERCHANT_KEY, None),
            (ScoreKeyType::OUTAGE_GLOBAL_KEY, Some(s("OUTAGE_GLOBAL_KEY"))),
            (ScoreKeyType::OUTAGE_MERCHANT_KEY, None),
        ]
    );
}

#[test]
fn success_and_failure_states_are_disjoint() {
    let ok = txnSuccessStates();
    let failed = txnFailureStates();
    assert_eq!(ok.len(), 11);
    assert_eq!(failed.len(), 4);
    assert!(ok.contains(&TxnStatus::CHARGED));
    assert!(failed.contains(&TxnStatus::AUTHORIZATION_FAILED));
    assert!(ok.iter().all(|s| !failed.contains(s)));
    assert!(isTransactionPending(TxnStatus::PENDING_VBV));
    assert!(!isTransactionPending(TxnStatus::CHARGED));
}

#[test]
fn routing_approaches() {
    assert!(isRoutingApproachInSRV2(Some(s("SR_SELECTION_V2_ROUTING"))));
    assert!(!isRoutingApproachInSRV2(None));
    assert!(isRoutingApproachInSRV3(Some(s("SR_V3_HEDGING"))));
    assert!(isRoutingApproachInExplore(Some(s("SR_V3_HEDGING"))));
    assert!(!isRoutingApproachInExplore(Some(s("SR_SELECTION_V3_ROUTING"))));
}

#[test]
fn latency_window() {
    let exempt = vec![s("CASH")];
    let gw = Some(s("PAYU"));
    assert!(isUpdateWithinLatencyWindow(GatewayScoringType::PENALISE, false, &gw, &exempt, i64::MAX, 15));
    assert!(isUpdateWithinLatencyWindow(GatewayScoringType::REWARD, true, &gw, &exempt, i64::MAX, 15));
    assert!(isUpdateWithinLatencyWindow(GatewayScoringType::REWARD, false, &Some(s("CASH")), &exempt, i64::MAX, 15));
    assert!(isUpdateWithinLatencyWindow(GatewayScoringType::REWARD, false, &None, &exempt, i64::MAX, 15));
    assert!(isUpdateWithinLatencyWindow(GatewayScoringType::REWARD, false, &gw, &exempt, 899_999, 15));
    assert!(!isUpdateWithinLatencyWindow(GatewayScoringType::REWARD, false, &gw, &exempt, 900_000, 15));
    assert!(checkExemptIfMandateTxn(true, &None, false));
    assert!(checkExemptIfMandateTxn(false, &Some(PaymentMethodType::NB), true));
    assert!(!checkExemptIfMandateTxn(false, &Some(PaymentMethodType::CARD), true));
}

#[test]
fn score_update_plans() {
    let v3 = Some(s("SR_SELECTION_V3_ROUTING"));
    assert_eq!(
        scoreUpdatePlan(GatewayScoringType::REWARD, TxnStatus::CHARGED, true, true, false, false, &v3),
        ScoreUpdatePlan { update_sr_v3: true, update_elimination: true }
    );
    assert_eq!(
        scoreUpdatePlan(GatewayScoringType::PENALISE, TxnStatus::PENDING_VBV, true, true, false, false, &v3),
        ScoreUpdatePlan { update_sr_v3: false, update_elimination: true }
    );
    assert_eq!(
        scoreUpdatePlan(GatewayScoringType::PENALISE, TxnStatus::FAILURE, true, true, false, false, &v3),
        ScoreUpdatePlan { update_sr_v3: false, update_elimination: false }
    );
    assert_eq!(
        scoreUpdatePlan(GatewayScoringType::PENALISE_SRV3, TxnStatus::FAILURE, true, true, true, true, &v3),
        ScoreUpdatePlan { update_sr_v3: false, update_elimination: false }
    );
    assert_eq!(
        scoreUpdatePlan(GatewayScoringType::PENALISE_SRV3, TxnStatus::FAILURE, true, true, true, false, &v3),
        ScoreUpdatePlan { update_sr_v3: true, update_elimination: false }
    );
    assert_eq!(
        scoreUpdatePlan(GatewayScoringType::REWARD, TxnStatus::CHARGED, false, true, false, false, &v3),
        ScoreUpdatePlan { update_sr_v3: false, update_elimination: false }
    );
}

#[test]
fn payment_method_type_text_round_trip() {
    let named = [
        PaymentMethodType::WALLET,
        PaymentMethodType::UPI,
        PaymentMethodType::NB,
        PaymentMethodType::CARD,
        PaymentMethodType::PAYLATER,
        PaymentMethodType::CONSUMER_FINANCE,
        PaymentMethodType::REWARD,
        PaymentMethodType::CASH,
        PaymentMethodType::AADHAAR,
        PaymentMethodType::PAPERNACH,
        PaymentMethodType::PAN,
        PaymentMethodType::MERCHANT_CONTAINER,
        PaymentMethodType::Virtual_Account,
        PaymentMethodType::OTC,
        PaymentMethodType::RTP,
        PaymentMethodType::CRYPTO,
        PaymentMethodType::CARD_QR,
    ];
    for p in named {
        let text = defaultEnumEncodeT(p.clone());
        assert_eq!(format!("{:?}", defaultEnumDecodeT(&text)), format!("{:?}", p));
    }
    assert_eq!(defaultEnumEncodeT(PaymentMethodType::Virtual_Account), "VIRTUAL_ACCOUNT");
    assert_eq!(format!("{:?}", defaultEnumDecodeT("upi")), "UPI");
    assert_eq!(format!("{:?}", defaultEnumDecodeT("gift")), format!("{:?}", PaymentMethodType::UNKNOWN(s("GIFT"))));
}

#[test]
fn text_helpers_of_the_consumer() {
    assert_eq!(getTrueString(Some(s(""))), None);
    assert_eq!(getTrueString(Some(s(" "))), Some(s(" ")));
    assert_eq!(getTrueString(None), None);
    assert!(!isTrueString(Some(s("  \t"))));
    assert!(isTrueString(Some(s(" x "))));
    assert!(!isTrueString(None));
    assert_eq!(fromString("17"), Some(17));
    assert_eq!(fromString("1.5"), None);
    assert_eq!(hush(Ok::<i32, String>(3)), Some(3));
    assert_eq!(hush(Err::<i32, String>(s("e"))), None);
}

#[test]
fn date_formats() {
    assert_eq!(getDateTimeFormat("YYYY-MM-DD HH:mm:ss"), "%F %T");
    assert_eq!(getDateTimeFormat("DD/MM/YYYY hh:mm A"), "%d/%m/%Y %I:%M %p");
    assert_eq!(getDateTimeFormat("YYYY-MM-DD HH:mm:SS.sss"), "%Y-%m-%d %H:%M:%S.%q");
    assert_eq!(getDateTimeFormat("X"), "%s");
    assert_eq!(getDateTimeFormat("unknown"), "%F %T");
}

#[test]
fn mandate_transactions() {
    assert_eq!(recurringTxnObjectTypes().len(), 4);
    assert!(isRecurringTxn(Some(TxnObjectType::EMANDATE_PAYMENT)));
    assert!(!isRecurringTxn(Some(TxnObjectType::ORDER_PAYMENT)));
    assert!(!isRecurringTxn(None));
    assert!(mandateRegisterTxnObjectTypes().contains(&TxnObjectType::MANDATE_REGISTER));
    assert!(isMandateRegTxn(TxnObjectType::TPV_EMANDATE_REGISTER));
    assert!(!isMandateRegTxn(TxnObjectType::MANDATE_PAYMENT));
}

#[test]
fn auth_types_and_scoring_kinds() {
    assert_eq!(textToAuthType(Some(s("THREE_DS_2"))), Some(AuthType::THREE_DS_2));
    assert_eq!(textToAuthType(Some(s("three_ds"))), None);
    assert_eq!(textToAuthType(None), None);
    assert_eq!(
        detailed_gateway_scoring_type(GatewayScoringType::REWARD, RoutingFlowType::SRV3_FLOW),
        DetailedGatewayScoringType::SRV3_REWARD
    );
    assert_eq!(
        detailed_gateway_scoring_type(GatewayScoringType::PENALISE_SRV3, RoutingFlowType::ELIMINATION_FLOW),
        DetailedGatewayScoringType::ELIMINATION_PENALISE
    );
    assert_eq!(
        detailed_gateway_scoring_type(GatewayScoringType::PENALISE, RoutingFlowType::SRV2_FLOW),
        DetailedGatewayScoringType::SRV2_PENALISE
    );
}

#[test]
fn cache_write_outcomes() {
    let ok: Result<(), String> = Ok(());
    let err: Result<(), String> = Err(s("down"));
    assert_eq!(cache_write_result(true, ok.clone(), err.clone(), Ok(1)), Ok(0));
    assert_eq!(cache_write_result(false, ok.clone(), err.clone(), Ok(1)), Ok(1));
    assert_eq!(cache_write_result(true, err.clone(), ok.clone(), Ok(1)), Err(s("down")));
    assert_eq!(cache_write_result(false, err.clone(), ok.clone(), Ok(1)), Ok(0));
    assert_eq!(cache_write_result(false, err.clone(), err.clone(), Ok(1)), Err(s("down")));
}

#[test]
fn key_score_updates() {
    assert_eq!(keyScoreUpdate(GatewayScoringType::PENALISE, true, true), KeyScoreUpdate::Penalty { elimination_v2: true });
    assert_eq!(keyScoreUpdate(GatewayScoringType::PENALISE, true, false), KeyScoreUpdate::Penalty { elimination_v2: false });
    assert_eq!(keyScoreUpdate(GatewayScoringType::REWARD, false, true), KeyScoreUpdate::Reward { elimination_v2: false });
    assert_eq!(keyScoreUpdate(GatewayScoringType::PENALISE_SRV3, true, true), KeyScoreUpdate::Unchanged);
    let ids = vec![s("m1"), s("m2"), s("m2")];
    assert_eq!(findMerchantIndex(&ids, &s("m2")), Some(1));
    assert_eq!(findMerchantIndex(&ids, &s("m3")), None);
    assert_eq!(merchantTransactionCount(4, GatewayScoringType::PENALISE), 5);
    assert_eq!(merchantTransactionCount(4, GatewayScoringType::REWARD), 4);
}

#[test]
fn penny_mandates_and_log_data() {
    assert!(isPennyTxnType(MandateTxnType::REGISTER));
    assert!(!isPennyTxnType(MandateTxnType::DEFAULT));
    assert!(isPennyMandateRegTxn(Some(TxnObjectType::EMANDATE_REGISTER), MandateTxnType::REGISTER));
    assert!(!isPennyMandateRegTxn(Some(TxnObjectType::EMANDATE_REGISTER), MandateTxnType::REGISTER_AND_DEBIT));
    assert!(!isPennyMandateRegTxn(None, MandateTxnType::REGISTER));
    let log = gatewayScoringTypeLogData(GatewayScoringType::REWARD, RoutingFlowType::ELIMINATION_FLOW, "2024-01-02 03:04:05 UTC");
    assert_eq!(log.dateCreated, "2024-01-02T03:04:05TUTC");
    assert_eq!(log.score_type, DetailedGatewayScoringType::ELIMINATION_REWARD);
}

#[test]
fn dates_in_indian_time() {
    assert_eq!(dateInIST("2024-01-01 00:00:00", "%Y-%m-%d %H:%M"), Some(s("2024-01-01 05:30")));
    assert_eq!(dateInIST("2024-01-01 20:00:00", "%d/%m/%Y"), Some(s("02/01/2024")));
    assert_eq!(dateInIST("2024-01-01", "%Y"), None);
    assert_eq!(dateInIST("2024-01-01 00:00:00", "%Y %!"), None);
    assert_eq!(getCurrentIstDateWithFormat("2024-01-01 20:00:00", "YYYY-MM-DD"), Some(s("2024-01-02")));
    assert_eq!(getCurrentIstDateWithFormat("2024-01-01 20:00:00", "unknown"), Some(s("2024-01-02 01:30:00")));
}
