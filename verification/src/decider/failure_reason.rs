//! The message that explains why no gateway was left for a transaction.
use vstd::prelude::*;
use crate::decider::gw_filter::views;
use crate::decider::types::DebugFilterEntry;
use crate::feedback::types::PaymentMethodType;
use crate::text::{cat, cat3, lowercase, str_eq, str_to_lowercase, string_or, text_or};

verus! {

/// What the failure message reads of the transaction, its card and the decider's state.
#[derive(Debug, Clone)]
pub struct FailureReasonFacts {
    /// The reference ids of the configured gateway accounts, already rendered as text.
    pub reference_ids: String,
    pub currency: String,
    pub card_brand: Option<String>,
    pub auth_type: Option<String>,
    pub validation_type: Option<String>,
    pub emi_type: Option<String>,
    pub emi_bank: Option<String>,
    pub is_card_txn: bool,
    pub is_emi: bool,
    pub bin_eligible_for_emi: bool,
    pub stored_card_vault_provider: Option<String>,
    pub payment_method: String,
    pub vault_provider: Option<String>,
    pub is_wallet_card: bool,
    pub is_nb_card: bool,
    pub is_reward_card: bool,
    pub payment_method_type: PaymentMethodType,
    pub is_google_pay_txn: bool,
    pub txn_type: Option<String>,
    pub txn_detail_type: String,
    pub is_cvv_less_txn: bool,
    pub is_moto_auth: bool,
    pub is_token_repeat_txn: bool,
    pub txn_gateway: Option<String>,
    pub order_preferred_gateway: Option<String>,
    pub payment_flows: Vec<String>,
}

/// The validation a transaction asks of its gateway, by the kind of transaction.
pub open spec fn validation_type(
    is_mandate: bool,
    is_card: bool,
    is_tpv: bool,
    is_emandate: bool,
    is_tpv_mandate: bool,
) -> Option<Seq<char>> {
    if is_mandate && is_card {
        Some("CARD_MANDATE"@)
    } else if is_tpv || is_emandate {
        if is_emandate {
            if is_tpv_mandate { Some("TPV_EMANDATE"@) } else { Some("EMANDATE"@) }
        } else {
            Some("TPV"@)
        }
    } else {
        None
    }
}

/// The validation type of a transaction: a card mandate, an e-mandate (third-party
/// validated or not) or a third-party validated payment; none for any other.
pub fn getValidationType(
    is_mandate: bool,
    is_card: bool,
    is_tpv: bool,
    is_emandate: bool,
    is_tpv_mandate: bool,
) -> (res: Option<String>)
    ensures
        match res {
            Some(s) => validation_type(is_mandate, is_card, is_tpv, is_emandate, is_tpv_mandate) == Some(s@),
            None => validation_type(is_mandate, is_card, is_tpv, is_emandate, is_tpv_mandate) is None,
        },
{
    if is_mandate && is_card {
        Some(String::from_str("CARD_MANDATE"))
    } else if is_tpv || is_emandate {
        if is_emandate {
            if is_tpv_mandate {
                Some(String::from_str("TPV_EMANDATE"))
            } else {
                Some(String::from_str("EMANDATE"))
            }
        } else {
            Some(String::from_str("TPV"))
        }
    } else {
        None
    }
}

/// The name of the first filter that left no gateway.
pub open spec fn first_empty_filter(list: Seq<DebugFilterEntry>) -> Option<Seq<char>>
    decreases list.len(),
{
    if list.len() == 0 {
        None
    } else if list[0].gateways@.len() == 0 {
        Some(list[0].filterName@)
    } else {
        first_empty_filter(list.drop_first())
    }
}

/// The gateways recorded by the first entry named `getFunctionalGateways`, or none.
pub open spec fn configured_gateways(list: Seq<DebugFilterEntry>) -> Seq<Seq<char>>
    decreases list.len(),
{
    if list.len() == 0 {
        Seq::empty()
    } else if list[0].filterName@ == "getFunctionalGateways"@ {
        views(list[0].gateways@)
    } else {
        configured_gateways(list.drop_first())
    }
}

/// The text of the vault that stored the card, in lowercase, or `card`, then a space.
pub open spec fn scope_text(f: FailureReasonFacts) -> Seq<char> {
    str_to_lowercase(text_or(f.stored_card_vault_provider, "card"@)) + " "@
}

pub open spec fn emi_reason(f: FailureReasonFacts) -> Seq<char> {
    let emi_type = str_to_lowercase(text_or(f.emi_type, "emi"@)) + " "@;
    let emi_bank = text_or(f.emi_bank, ""@) + " "@;
    let supporting = "No functional gateways supporting "@ + emi_bank + scope_text(f) + emi_type + " transaction."@;
    if f.is_card_txn && !f.is_emi {
        "Gateways configured supports only emi transaction."@
    } else if f.is_card_txn {
        if f.bin_eligible_for_emi { supporting } else { "Bin doesn't support emi transaction."@ }
    } else {
        supporting
    }
}

pub open spec fn is_upi(p: PaymentMethodType) -> bool {
    p is UPI
}

pub open spec fn functional_gateways_reason(f: FailureReasonFacts) -> Seq<char> {
    if f.is_card_txn {
        if f.is_cvv_less_txn && f.is_moto_auth {
            "No functional gateways supporting cvv less "@ + scope_text(f) + " repeat moto transaction."@
        } else if f.is_cvv_less_txn {
            "No functional gateways supporting cvv less "@ + scope_text(f) + " transaction."@
        } else if f.is_token_repeat_txn {
            "No functional gateways supporting "@ + scope_text(f) + " transaction."@
        } else {
            "No functional gateways supporting transaction."@
        }
    } else {
        "No functional gateways supporting transaction."@
    }
}

/// The gateway the transaction asks for: its own, else the order's preferred one.
pub open spec fn preferred_gateway(f: FailureReasonFacts) -> Option<Seq<char>> {
    match f.txn_gateway {
        Some(g) => Some(g@),
        None => match f.order_preferred_gateway {
            Some(g) => Some(g@),
            None => None,
        },
    }
}

pub open spec fn preferred_gateway_reason(f: FailureReasonFacts, configured: Seq<Seq<char>>) -> Seq<char> {
    match preferred_gateway(f) {
        Some(p) => if configured.contains(p) {
            p + " is not supporting this transaction."@
        } else {
            p + " is not configured."@
        },
        None => "No functional gateways supporting this transaction."@,
    }
}

pub open spec fn required_flow_text(flows: Seq<Seq<char>>) -> Seq<char> {
    if flows.contains("MUTUAL_FUND"@) {
        "Mutual Fund transaction flow"@
    } else if flows.contains("CROSS_BORDER_PAYMENT"@) {
        "Cross Border transaction flow"@
    } else if flows.contains("SINGLE_BLOCK_MULTIPLE_DEBIT"@) {
        "Single Block Multiple Debit"@
    } else {
        "Merchant requested payment flows "@
    }
}

/// The message for the filter `name`, the first that left no gateway.
pub open spec fn failure_reason_for(name: Seq<char>, f: FailureReasonFacts, configured: Seq<Seq<char>>) -> Seq<char> {
    if name == "getFunctionalGateways"@ {
        "No gateways are configured with the referenceIds "@ + f.reference_ids@ + " to proceed transaction"@
    } else if name == "filterFunctionalGatewaysForCurrency"@ {
        "No functional gateways after filtering for currency "@ + f.currency@
    } else if name == "filterFunctionalGatewaysForBrand"@ {
        "No functional gateways after filtering for brand "@ + text_or(f.card_brand, ""@)
    } else if name == "filterFunctionalGatewaysForAuthType"@ {
        "No functional gateways after filtering for authType "@ + text_or(f.auth_type, ""@)
    } else if name == "filterFunctionalGatewaysForValidationType"@ {
        "No functional gateways after filtering for validationType "@ + text_or(f.validation_type, ""@)
    } else if name == "filterFunctionalGatewaysForEmi"@ {
        emi_reason(f)
    } else if name == "filterFunctionalGatewaysForPaymentMethod"@ {
        "No functional gateways supporting "@ + f.payment_method@ + " payment method."@
    } else if name == "filterFunctionalGatewaysForTokenProvider"@ {
        "No functional gateways supporting "@ + text_or(f.vault_provider, "Juspay"@) + " saved cards."@
    } else if name == "filterFunctionalGatewaysForWallet"@ {
        if f.is_wallet_card {
            "No functional gateways supporting wallet transaction."@
        } else {
            "Gateways configured supports only wallet transaction."@
        }
    } else if name == "filterFunctionalGatewaysForNbOnly"@ {
        if f.is_nb_card {
            "No functional gateways supporting Net Banking transaction."@
        } else {
            "Gateways configured supports only Net Banking transaction."@
        }
    } else if name == "filterFunctionalGatewaysForConsumerFinance"@ {
        if f.payment_method_type is CONSUMER_FINANCE {
            "No functional gateways supporting Consumer Finance transaction."@
        } else {
            "Gateways configured supports only Consumer Finance transaction."@
        }
    } else if name == "filterFunctionalGatewaysForUpi"@ {
        if is_upi(f.payment_method_type) {
            "No functional gateways supporting UPI transaction."@
        } else if !f.is_google_pay_txn {
            "Gateways configured supports only UPI transaction."@
        } else {
            "No functional gateways"@
        }
    } else if name == "filterFunctionalGatewaysForTxnType"@ {
        match f.txn_type {
            Some(t) => "No functional gateways supporting "@ + t@ + " transaction."@,
            None => "No functional gateways"@,
        }
    } else if name == "filterFunctionalGatewaysForTxnDetailType"@ {
        "No functional gateways supporting "@ + f.txn_detail_type@ + " transaction."@
    } else if name == "filterFunctionalGatewaysForReward"@ {
        if f.is_reward_card || f.payment_method_type is REWARD {
            "No functional gateways supporting Reward transaction."@
        } else {
            "Gateways configured supports only Reward transaction."@
        }
    } else if name == "filterFunctionalGatewaysForCash"@ {
        if f.payment_method_type is CASH {
            "No functional gateways supporting CASH transaction."@
        } else {
            "Gateways configured supports only CASH transaction."@
        }
    } else if name == "filterFunctionalGatewaysForSplitSettlement"@ {
        "No functional gateways after validating split."@
    } else if name == "filterFunctionalGatewaysForOTMFlow"@ {
        "No functional gateways after filtering for OTM flow."@
    } else if name == "filterFunctionalGateways"@ {
        functional_gateways_reason(f)
    } else if name == "preferredGateway"@ {
        preferred_gateway_reason(f, configured)
    } else if name == "filterEnforcement"@ {
        "Priority logic enforced gateways are not supporting this transaction."@
    } else if name == "filterFunctionalGatewaysForMerchantRequiredFlow"@ {
        "No functional gateways after filtering for "@ + required_flow_text(views(f.payment_flows@))
    } else if name == "filterGatewaysForMGASelectionIntegrity"@ {
        "Conflicting configurations found or no functional gateways supporting this transaction"@
    } else if name == "filterGatewaysForEMITenureSpecficGatewayCreds"@ {
        "No functional gateways supporting for emi."@
    } else if name == "FilterFunctionalGatewaysForReversePennyDrop"@ {
        "No functional gateways after filtering for Reverse Penny Drop transaction "@
    } else {
        "No functional gateways supporting this transaction."@
    }
}

/// The message for a decision that left no gateway: it names the first filter that
/// emptied the list; with no such filter it is the general message.
pub open spec fn decider_failure_reason(list: Seq<DebugFilterEntry>, f: FailureReasonFacts) -> Seq<char> {
    let name = match first_empty_filter(list) {
        Some(n) => n,
        None => "NO_EMPTY"@,
    };
    failure_reason_for(name, f, configured_gateways(list))
}

fn find_first_empty_filter(list: &Vec<DebugFilterEntry>) -> (res: Option<String>)
    ensures
        match res {
            Some(n) => first_empty_filter(list@) == Some(n@),
            None => first_empty_filter(list@) is None,
        },
{
    let mut i: usize = 0;
    assert(list@.skip(0) =~= list@);
    while i < list.len()
        invariant
            i <= list.len(),
            first_empty_filter(list@) == first_empty_filter(list@.skip(i as int)),
        decreases list.len() - i,
    {
        assert(list@.skip(i as int)[0] == list@[i as int]);
        if list[i].gateways.len() == 0 {
            return Some(list[i].filterName.clone());
        }
        assert(list@.skip(i as int).drop_first() =~= list@.skip(i + 1));
        i = i + 1;
    }
    assert(list@.skip(i as int).len() == 0);
    None
}

fn find_configured_gateways(list: &Vec<DebugFilterEntry>) -> (res: Vec<String>)
    ensures
        views(res@) == configured_gateways(list@),
{
    let mut i: usize = 0;
    assert(list@.skip(0) =~= list@);
    while i < list.len()
        invariant
            i <= list.len(),
            configured_gateways(list@) == configured_gateways(list@.skip(i as int)),
        decreases list.len() - i,
    {
        assert(list@.skip(i as int)[0] == list@[i as int]);
        if str_eq(list[i].filterName.as_str(), "getFunctionalGateways") {
            return crate::decider::flows::copy_strings(&list[i].gateways);
        }
        assert(list@.skip(i as int).drop_first() =~= list@.skip(i + 1));
        i = i + 1;
    }
    assert(list@.skip(i as int).len() == 0);
    assert(views(Seq::<String>::empty()) =~= Seq::<Seq<char>>::empty());
    Vec::new()
}

fn scope(f: &FailureReasonFacts) -> (res: String)
    ensures
        res@ == scope_text(*f),
{
    let provider = string_or(&f.stored_card_vault_provider, "card");
    let low = lowercase(provider.as_str());
    cat(low.as_str(), " ")
}

fn emi_message(f: &FailureReasonFacts) -> (res: String)
    ensures
        res@ == emi_reason(*f),
{
    if f.is_card_txn && !f.is_emi {
        return String::from_str("Gateways configured supports only emi transaction.");
    }
    if f.is_card_txn && !f.bin_eligible_for_emi {
        return String::from_str("Bin doesn't support emi transaction.");
    }
    let et = string_or(&f.emi_type, "emi");
    let et_low = lowercase(et.as_str());
    let emi_type = cat(et_low.as_str(), " ");
    let eb = string_or(&f.emi_bank, "");
    let emi_bank = cat(eb.as_str(), " ");
    let sc = scope(f);
    let mut s = String::from_str("No functional gateways supporting ");
    s.append(emi_bank.as_str());
    s.append(sc.as_str());
    s.append(emi_type.as_str());
    s.append(" transaction.");
    s
}

fn functional_gateways_message(f: &FailureReasonFacts) -> (res: String)
    ensures
        res@ == functional_gateways_reason(*f),
{
    if f.is_card_txn {
        if f.is_cvv_less_txn && f.is_moto_auth {
            let sc = scope(f);
            cat3("No functional gateways supporting cvv less ", sc.as_str(), " repeat moto transaction.")
        } else if f.is_cvv_less_txn {
            let sc = scope(f);
            cat3("No functional gateways supporting cvv less ", sc.as_str(), " transaction.")
        } else if f.is_token_repeat_txn {
            let sc = scope(f);
            cat3("No functional gateways supporting ", sc.as_str(), " transaction.")
        } else {
            String::from_str("No functional gateways supporting transaction.")
        }
    } else {
        String::from_str("No functional gateways supporting transaction.")
    }
}

fn preferred_gateway_message(f: &FailureReasonFacts, configured: &Vec<String>) -> (res: String)
    ensures
        res@ == preferred_gateway_reason(*f, views(configured@)),
{
    let pref: Option<&String> = match &f.txn_gateway {
        Some(g) => Some(g),
        None => match &f.order_preferred_gateway {
            Some(g) => Some(g),
            None => None,
        },
    };
    match pref {
        Some(p) => {
            if crate::decider::gw_filter::contains_str(configured, p) {
                cat(p.as_str(), " is not supporting this transaction.")
            } else {
                cat(p.as_str(), " is not configured.")
            }
        },
        None => String::from_str("No functional gateways supporting this transaction."),
    }
}

fn contains_text(v: &Vec<String>, s: &str) -> (res: bool)
    ensures
        res == views(v@).contains(s@),
{
    let mut i: usize = 0;
    while i < v.len()
        invariant
            i <= v.len(),
            forall|j: int| 0 <= j < i ==> views(v@)[j] != s@,
        decreases v.len() - i,
    {
        if str_eq(v[i].as_str(), s) {
            assert(views(v@)[i as int] == s@);
            return true;
        }
        i = i + 1;
    }
    proof {
        if views(v@).contains(s@) {
            let k = choose|k: int| 0 <= k < views(v@).len() && views(v@)[k] == s@;
            assert(views(v@)[k] != s@);
        }
    }
    false
}

fn required_flow_message(flows: &Vec<String>) -> (res: String)
    ensures
        res@ == "No functional gateways after filtering for "@ + required_flow_text(views(flows@)),
{
    let text = if contains_text(flows, "MUTUAL_FUND") {
        "Mutual Fund transaction flow"
    } else if contains_text(flows, "CROSS_BORDER_PAYMENT") {
        "Cross Border transaction flow"
    } else if contains_text(flows, "SINGLE_BLOCK_MULTIPLE_DEBIT") {
        "Single Block Multiple Debit"
    } else {
        "Merchant requested payment flows "
    };
    cat("No functional gateways after filtering for ", text)
}

/// The message for the filter `name`.
pub fn failureReasonFor(name: &str, f: &FailureReasonFacts, configured: &Vec<String>) -> (res: String)
    ensures
        res@ == failure_reason_for(name@, *f, views(configured@)),
{
    if str_eq(name, "getFunctionalGateways") {
        cat3("No gateways are configured with the referenceIds ", f.reference_ids.as_str(), " to proceed transaction")
    } else if str_eq(name, "filterFunctionalGatewaysForCurrency") {
        cat("No functional gateways after filtering for currency ", f.currency.as_str())
    } else if str_eq(name, "filterFunctionalGatewaysForBrand") {
        let b = string_or(&f.card_brand, "");
        cat("No functional gateways after filtering for brand ", b.as_str())
    } else if str_eq(name, "filterFunctionalGatewaysForAuthType") {
        let a = string_or(&f.auth_type, "");
        cat("No functional gateways after filtering for authType ", a.as_str())
    } else if str_eq(name, "filterFunctionalGatewaysForValidationType") {
        let v = string_or(&f.validation_type, "");
        cat("No functional gateways after filtering for validationType ", v.as_str())
    } else if str_eq(name, "filterFunctionalGatewaysForEmi") {
        emi_message(f)
    } else if str_eq(name, "filterFunctionalGatewaysForPaymentMethod") {
        cat3("No functional gateways supporting ", f.payment_method.as_str(), " payment method.")
    } else if str_eq(name, "filterFunctionalGatewaysForTokenProvider") {
        let v = string_or(&f.vault_provider, "Juspay");
        cat3("No functional gateways supporting ", v.as_str(), " saved cards.")
    } else if str_eq(name, "filterFunctionalGatewaysForWallet") {
        if f.is_wallet_card {
            String::from_str("No functional gateways supporting wallet transaction.")
        } else {
            String::from_str("Gateways configured supports only wallet transaction.")
        }
    } else if str_eq(name, "filterFunctionalGatewaysForNbOnly") {
        if f.is_nb_card {
            String::from_str("No functional gateways supporting Net Banking transaction.")
        } else {
            String::from_str("Gateways configured supports only Net Banking transaction.")
        }
    } else if str_eq(name, "filterFunctionalGatewaysForConsumerFinance") {
        if matches!(f.payment_method_type, PaymentMethodType::CONSUMER_FINANCE) {
            String::from_str("No functional gateways supporting Consumer Finance transaction.")
        } else {
            String::from_str("Gateways configured supports only Consumer Finance transaction.")
        }
    } else if str_eq(name, "filterFunctionalGatewaysForUpi") {
        if matches!(f.payment_method_type, PaymentMethodType::UPI) {
            String::from_str("No functional gateways supporting UPI transaction.")
        } else if !f.is_google_pay_txn {
            String::from_str("Gateways configured supports only UPI transaction.")
        } else {
            String::from_str("No functional gateways")
        }
    } else if str_eq(name, "filterFunctionalGatewaysForTxnType") {
        match &f.txn_type {
            Some(t) => cat3("No functional gateways supporting ", t.as_str(), " transaction."),
            None => String::from_str("No functional gateways"),
        }
    } else if str_eq(name, "filterFunctionalGatewaysForTxnDetailType") {
        cat3("No functional gateways supporting ", f.txn_detail_type.as_str(), " transaction.")
    } else if str_eq(name, "filterFunctionalGatewaysForReward") {
        if f.is_reward_card || matches!(f.payment_method_type, PaymentMethodType::REWARD) {
            String::from_str("No functional gateways supporting Reward transaction.")
        } else {
            String::from_str("Gateways configured supports only Reward transaction.")
        }
    } else if str_eq(name, "filterFunctionalGatewaysForCash") {
        if matches!(f.payment_method_type, PaymentMethodType::CASH) {
            String::from_str("No functional gateways supporting CASH transaction.")
        } else {
            String::from_str("Gateways configured supports only CASH transaction.")
        }
    } else if str_eq(name, "filterFunctionalGatewaysForSplitSettlement") {
        String::from_str("No functional gateways after validating split.")
    } else if str_eq(name, "filterFunctionalGatewaysForOTMFlow") {
        String::from_str("No functional gateways after filtering for OTM flow.")
    } else if str_eq(name, "filterFunctionalGateways") {
        functional_gateways_message(f)
    } else if str_eq(name, "preferredGateway") {
        preferred_gateway_message(f, configured)
    } else if str_eq(name, "filterEnforcement") {
        String::from_str("Priority logic enforced gateways are not supporting this transaction.")
    } else if str_eq(name, "filterFunctionalGatewaysForMerchantRequiredFlow") {
        required_flow_message(&f.payment_flows)
    } else if str_eq(name, "filterGatewaysForMGASelectionIntegrity") {
        String::from_str("Conflicting configurations found or no functional gateways supporting this transaction")
    } else if str_eq(name, "filterGatewaysForEMITenureSpecficGatewayCreds") {
        String::from_str("No functional gateways supporting for emi.")
    } else if str_eq(name, "FilterFunctionalGatewaysForReversePennyDrop") {
        String::from_str("No functional gateways after filtering for Reverse Penny Drop transaction ")
    } else {
        String::from_str("No functional gateways supporting this transaction.")
    }
}

/// Why the decider found no gateway: the message of the first filter that left the
/// list empty, read against the transaction's facts.
pub fn getDeciderFailureReason(debugFilterList: &Vec<DebugFilterEntry>, facts: &FailureReasonFacts) -> (res: String)
    ensures
        res@ == decider_failure_reason(debugFilterList@, *facts),
{
    let configured = find_configured_gateways(debugFilterList);
    match find_first_empty_filter(debugFilterList) {
        Some(name) => failureReasonFor(name.as_str(), facts, &configured),
        None => failureReasonFor("NO_EMPTY", facts, &configured),
    }
}

/// A name that does not start with `N` is not the sentinel `NO_EMPTY` that stands for
/// "no filter emptied the list".
proof fn lemma_not_sentinel(name: Seq<char>)
    requires
        name.len() > 0,
        name[0] != 'N',
    ensures
        name != "NO_EMPTY"@,
{
    reveal_strlit("NO_EMPTY");
}

/// When every filter left some gateway, the reason is the general message.
pub proof fn lemma_no_emptied_filter_gives_general_message(list: Seq<DebugFilterEntry>, f: FailureReasonFacts)
    requires
        first_empty_filter(list) is None,
    ensures
        decider_failure_reason(list, f) == "No functional gateways supporting this transaction."@,
{
    // Each filter name with a message of its own differs from the sentinel in its first
    // character; a literal's characters are known once it is revealed.
    reveal_strlit("getFunctionalGateways");
    lemma_not_sentinel("getFunctionalGateways"@);
    reveal_strlit("filterFunctionalGatewaysForCurrency");
    lemma_not_sentinel("filterFunctionalGatewaysForCurrency"@);
    reveal_strlit("filterFunctionalGatewaysForBrand");
    lemma_not_sentinel("filterFunctionalGatewaysForBrand"@);
    reveal_strlit("filterFunctionalGatewaysForAuthType");
    lemma_not_sentinel("filterFunctionalGatewaysForAuthType"@);
    reveal_strlit("filterFunctionalGatewaysForValidationType");
    lemma_not_sentinel("filterFunctionalGatewaysForValidationType"@);
    reveal_strlit("filterFunctionalGatewaysForEmi");
    lemma_not_sentinel("filterFunctionalGatewaysForEmi"@);
    reveal_strlit("filterFunctionalGatewaysForPaymentMethod");
    lemma_not_sentinel("filterFunctionalGatewaysForPaymentMethod"@);
    reveal_strlit("filterFunctionalGatewaysForTokenProvider");
    lemma_not_sentinel("filterFunctionalGatewaysForTokenProvider"@);
    reveal_strlit("filterFunctionalGatewaysForWallet");
    lemma_not_sentinel("filterFunctionalGatewaysForWallet"@);
    reveal_strlit("filterFunctionalGatewaysForNbOnly");
    lemma_not_sentinel("filterFunctionalGatewaysForNbOnly"@);
    reveal_strlit("filterFunctionalGatewaysForConsumerFinance");
    lemma_not_sentinel("filterFunctionalGatewaysForConsumerFinance"@);
    reveal_strlit("filterFunctionalGatewaysForUpi");
    lemma_not_sentinel("filterFunctionalGatewaysForUpi"@);
    reveal_strlit("filterFunctionalGatewaysForTxnType");
    lemma_not_sentinel("filterFunctionalGatewaysForTxnType"@);
    reveal_strlit("filterFunctionalGatewaysForTxnDetailType");
    lemma_not_sentinel("filterFunctionalGatewaysForTxnDetailType"@);
    reveal_strlit("filterFunctionalGatewaysForReward");
    lemma_not_sentinel("filterFunctionalGatewaysForReward"@);
    reveal_strlit("filterFunctionalGatewaysForCash");
    lemma_not_sentinel("filterFunctionalGatewaysForCash"@);
    reveal_strlit("filterFunctionalGatewaysForSplitSettlement");
    lemma_not_sentinel("filterFunctionalGatewaysForSplitSettlement"@);
    reveal_strlit("filterFunctionalGatewaysForOTMFlow");
    lemma_not_sentinel("filterFunctionalGatewaysForOTMFlow"@);
    reveal_strlit("filterFunctionalGateways");
    lemma_not_sentinel("filterFunctionalGateways"@);
    reveal_strlit("preferredGateway");
    lemma_not_sentinel("preferredGateway"@);
    reveal_strlit("filterEnforcement");
    lemma_not_sentinel("filterEnforcement"@);
    reveal_strlit("filterFunctionalGatewaysForMerchantRequiredFlow");
    lemma_not_sentinel("filterFunctionalGatewaysForMerchantRequiredFlow"@);
    reveal_strlit("filterGatewaysForMGASelectionIntegrity");
    lemma_not_sentinel("filterGatewaysForMGASelectionIntegrity"@);
    reveal_strlit("filterGatewaysForEMITenureSpecficGatewayCreds");
    lemma_not_sentinel("filterGatewaysForEMITenureSpecficGatewayCreds"@);
    reveal_strlit("FilterFunctionalGatewaysForReversePennyDrop");
    lemma_not_sentinel("FilterFunctionalGatewaysForReversePennyDrop"@);
}

} // verus!
