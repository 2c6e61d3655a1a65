use open_router::decider::flows::{
    addPreferredGatewaysToPriorityList, copy_strings, enforcedGateways, filterList, getGatewayToMGAIdMapF,
    handleEnforcedGateway, preferenceOutcome, txnCreationTime, PreferenceOutcome, needsFallbackAfterEnforcement,
    enforcementAfterFallback, afterPriorityLogic,
};
use open_router::decider::gw_filter::{makeFirstLetterSmall, ord_nub, setGwsAndMgas_rs, setGws_rs, FunctionalGatewayState};
use open_router::decider::storage_utils::{
    emiBankCodeLookupName, filter_morpheus, gatewayBankEmiSupportQuery, gatewayBankEmiSupportV2Query,
    is_only_one_paylater, is_suffix_of, trimSuffix,
};
use open_router::decider::types::DebugFilterEntry;
use open_router::storage::types::MerchantGatewayAccount;

fn s(x: &str) -> String {
    x.to_string()
}

fn v(xs: &[&str]) -> Vec<String> {
    xs.iter().map(|x| x.to_string()).collect()
}

fn mga(id: i64, gateway: &str) -> MerchantGatewayAccount {
    MerchantGatewayAccount {
        id,
        account_details: s("{}"),
        gateway: s(gateway),
        merchant_id: s("m1"),
        payment_methods: None,
        supported_payment_flows: None,
        disabled: Some(false),
        reference_id: None,
        supported_currencies: None,
        gateway_identifier: None,
        gateway_type: None,
        supported_txn_type: None,
    }
}

#[test]
fn enforced_gateway_list_needs_a_gateway() {
    assert_eq!(handleEnforcedGateway(None), None);
    assert_eq!(handleEnforcedGateway(Some(vec![])), None);
    assert_eq!(handleEnforcedGateway(Some(v(&["PAYU"]))), Some(v(&["PAYU"])));
}

#[test]
fn preferred_gateway_moves_to_the_front() {
    let pl = v(&["A", "B", "C", "B"]);
    assert_eq!(addPreferredGatewaysToPriorityList(&pl, Some(s("B"))), v(&["B", "A", "C"]));
    assert_eq!(addPreferredGatewaysToPriorityList(&pl, Some(s("Z"))), v(&["Z", "A", "B", "C", "B"]));
    assert_eq!(addPreferredGatewaysToPriorityList(&pl, None), pl);
    assert_eq!(addPreferredGatewaysToPriorityList(&vec![], Some(s("A"))), v(&["A"]));
}

#[test]
fn preferred_gateway_occurs_once() {
    let out = addPreferredGatewaysToPriorityList(&v(&["X", "P", "Y", "P"]), Some(s("P")));
    assert_eq!(out[0], "P");
    assert_eq!(out.iter().filter(|g| g.as_str() == "P").count(), 1);
    assert_eq!(&out[1..], &v(&["X", "Y"])[..]);
}

#[test]
fn enforcement_keeps_functional_order() {
    assert_eq!(enforcedGateways(&v(&["A", "B", "C"]), &v(&["C", "A"])), v(&["A", "C"]));
    assert_eq!(enforcedGateways(&v(&["A"]), &v(&[])), Vec::<String>::new());
}

#[test]
fn preference_outcomes() {
    let f = v(&["A", "B"]);
    assert_eq!(preferenceOutcome(&Some(s("A")), false, &f), PreferenceOutcome::UsePreferred);
    assert_eq!(preferenceOutcome(&Some(s("Z")), false, &f), PreferenceOutcome::PreferredNotFunctional);
    assert_eq!(preferenceOutcome(&Some(s("A")), true, &f), PreferenceOutcome::ByPriorityLogic);
    assert_eq!(preferenceOutcome(&None, false, &f), PreferenceOutcome::ByPriorityLogic);
}

#[test]
fn first_account_of_each_gateway() {
    let mgas = vec![mga(10, "A"), mga(11, "B"), mga(12, "A")];
    let out = getGatewayToMGAIdMapF(&mgas, &v(&["A", "B", "C"]));
    assert_eq!(out, vec![(s("A"), Some(10)), (s("B"), Some(11)), (s("C"), None)]);
}

#[test]
fn filter_list_copies_entries() {
    let list = vec![
        DebugFilterEntry { filterName: s("getFunctionalGateways"), gateways: v(&["A", "B"]) },
        DebugFilterEntry { filterName: s("filterFunctionalGatewaysForCurrency"), gateways: vec![] },
    ];
    assert_eq!(
        filterList(&list),
        vec![(s("getFunctionalGateways"), v(&["A", "B"])), (s("filterFunctionalGatewaysForCurrency"), vec![])]
    );
    assert_eq!(copy_strings(&v(&["x", "y"])), v(&["x", "y"]));
}

#[test]
fn creation_time_in_iso_form() {
    assert_eq!(txnCreationTime("2024-05-01 10:20:30 UTC"), "2024-05-01T10:20:30TUTC");
    assert_eq!(txnCreationTime("a UTC"), "aTUTC");
    assert_eq!(txnCreationTime("2024-05-01 10:20:30"), "2024-05-01T10:20:30");
    assert_eq!(txnCreationTime(""), "");
    assert!(!txnCreationTime("a b c UTC d").contains(' '));
}

#[test]
fn ord_nub_sorts_and_dedups() {
    assert_eq!(ord_nub(v(&["PAYU", "HDFC", "PAYU", "AXIS"])), v(&["AXIS", "HDFC", "PAYU"]));
    assert_eq!(ord_nub(vec![]), Vec::<String>::new());
}

#[test]
fn ord_nub_depends_only_on_the_set() {
    let a = ord_nub(v(&["c", "a", "b", "a"]));
    let b = ord_nub(v(&["b", "c", "a"]));
    assert_eq!(a, b);
    assert_eq!(ord_nub(a.clone()), a);
}

#[test]
fn setting_gateways_from_accounts() {
    let mut st = FunctionalGatewayState { functionalGateways: vec![], mgas: None };
    setGwsAndMgas_rs(&mut st, vec![mga(1, "B"), mga(2, "A"), mga(3, "B")]);
    assert_eq!(st.functionalGateways, v(&["A", "B"]));
    assert_eq!(st.mgas.as_ref().map(|m| m.len()), Some(3));
}

#[test]
fn narrowing_gateways_keeps_their_accounts_only() {
    let mut st = FunctionalGatewayState { functionalGateways: vec![], mgas: Some(vec![mga(1, "A"), mga(2, "B"), mga(3, "C")]) };
    setGws_rs(&mut st, v(&["C", "A"]));
    assert_eq!(st.functionalGateways, v(&["C", "A"]));
    let ids: Vec<i64> = st.mgas.as_ref().unwrap().iter().map(|m| m.id).collect();
    assert_eq!(ids, vec![1, 3]);
    assert!(st.mgas.as_ref().unwrap().iter().all(|m| st.functionalGateways.contains(&m.gateway)));

    let mut none = FunctionalGatewayState { functionalGateways: vec![], mgas: None };
    setGws_rs(&mut none, v(&["A"]));
    assert!(none.mgas.is_none());
}

#[test]
fn first_letter_lowercased() {
    assert_eq!(makeFirstLetterSmall(s("GetFunctionalGateways")), "getFunctionalGateways");
    assert_eq!(makeFirstLetterSmall(s("")), "");
    assert_eq!(makeFirstLetterSmall(s("x")), "x");
}

#[test]
fn suffixes() {
    assert!(is_suffix_of("DC", "HDFCDC"));
    assert!(!is_suffix_of("DC", "HDFC"));
    assert!(is_suffix_of("", "abc"));
    assert!(!is_suffix_of("abcd", "bcd"));
    assert_eq!(trimSuffix("HDFC_CLEMI"), "HDFC");
    assert_eq!(trimSuffix("ICICI_CC"), "ICICI");
    assert_eq!(trimSuffix("AXISDC"), "AXIS");
    assert_eq!(trimSuffix("KOTAK"), "KOTAK");
    assert_eq!(trimSuffix("DC"), "");
}

#[test]
fn emi_support_queries() {
    let gws = v(&["PAYU"]);
    assert_eq!(gatewayBankEmiSupportQuery(&None, &gws, "CARD"), None);
    assert_eq!(gatewayBankEmiSupportQuery(&Some(s("HDFC")), &vec![], "CARD"), None);
    assert_eq!(gatewayBankEmiSupportQuery(&Some(s("HDFC")), &gws, "CARDLESS"), Some((s("HDFC"), s("CARD"))));
    assert_eq!(gatewayBankEmiSupportQuery(&Some(s("HDFC")), &gws, "CARD"), Some((s("HDFC"), s("CARD"))));
    assert_eq!(emiBankCodeLookupName(&Some(s("AXISDC")), Some(6)), Some(s("AXIS")));
    assert_eq!(emiBankCodeLookupName(&Some(s("AXISDC")), None), None);
    assert_eq!(emiBankCodeLookupName(&None, Some(6)), None);
    assert_eq!(gatewayBankEmiSupportV2Query("AXISDC", "CARD", &vec![7]), Some((7, s("DEBIT"))));
    assert_eq!(gatewayBankEmiSupportV2Query("AXIS", "CARD", &vec![7]), Some((7, s("CREDIT"))));
    assert_eq!(gatewayBankEmiSupportV2Query("AXISDC", "CARDLESS", &vec![7]), Some((7, s("CONSUMER_FINANCE"))));
    assert_eq!(gatewayBankEmiSupportV2Query("AXIS", "CARD", &vec![]), None);
    assert_eq!(gatewayBankEmiSupportV2Query("AXIS", "CARD", &vec![1, 2]), None);
}

#[test]
fn morpheus_accounts_are_dropped() {
    let out = filter_morpheus(vec![mga(1, "MORPHEUS"), mga(2, "PAYU"), mga(3, "MORPHEUS"), mga(4, "HDFC")]);
    let ids: Vec<i64> = out.iter().map(|m| m.id).collect();
    assert_eq!(ids, vec![2, 4]);
    assert!(out.iter().all(|m| m.gateway != "MORPHEUS"));
}

#[test]
fn single_paylater_account() {
    assert!(is_only_one_paylater(vec![mga(1, "PAYLATER")]));
    assert!(!is_only_one_paylater(vec![mga(1, "PAYU")]));
    assert!(!is_only_one_paylater(vec![]));
    assert!(!is_only_one_paylater(vec![mga(1, "PAYLATER"), mga(2, "PAYLATER")]));
}

#[test]
fn enforcement_fallback_steps() {
    assert!(needsFallbackAfterEnforcement(&vec![], false));
    assert!(!needsFallbackAfterEnforcement(&vec![], true));
    assert!(!needsFallbackAfterEnforcement(&v(&["A"]), false));
    let f = v(&["A", "B", "C"]);
    assert_eq!(enforcementAfterFallback(&f, &v(&["C"]), Some(s("A")), true), (v(&["A", "C"]), false));
    assert_eq!(enforcementAfterFallback(&f, &v(&["Z"]), None, true), (vec![], true));
    assert_eq!(enforcementAfterFallback(&f, &v(&["Z"]), None, false), (f.clone(), false));
}

#[test]
fn step_after_priority_logic() {
    let f = v(&["A", "B", "C"]);
    let r = afterPriorityLogic(&f, &v(&["C", "B"]), Some(s("A")), true, false);
    assert_eq!(r.priority, v(&["A", "C", "B"]));
    assert_eq!(r.gateways, v(&["A", "B", "C"]));
    assert!(!r.run_fallback);
    let r = afterPriorityLogic(&f, &v(&["Z"]), None, true, false);
    assert!(r.gateways.is_empty());
    assert!(r.run_fallback);
    let r = afterPriorityLogic(&f, &v(&["Z"]), None, true, true);
    assert!(!r.run_fallback);
    let r = afterPriorityLogic(&f, &v(&["Z"]), None, false, false);
    assert_eq!(r.gateways, f);
    assert!(!r.run_fallback);
}
