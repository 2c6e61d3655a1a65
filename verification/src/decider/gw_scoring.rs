//! Decisions of success-rate based gateway scoring that do not depend on the scores'
//! values: cache keys, the choice of configuration record, and how the outcome of an
//! elimination is classified and reported.
use vstd::prelude::*;
use crate::decider::gw_filter::views;
use crate::decider::types::{DownTime, FilterLevel, GatewayDeciderApproach, ResetApproach};
use crate::feedback::types::PaymentMethodType;
use crate::text::{cat, opt_view, opt_is, clone_opt, str_eq, parse_i32, spec_parse_i32};

verus! {

/// The prefix of the cache key holding a merchant's first success rates.
pub const SR1_KEY_PREFIX: &'static str = "sr1_";

/// The prefix of the cache key holding a merchant's transaction counts.
pub const N_KEY_PREFIX: &'static str = "n_";

/// The field of both keys that holds the merchant's default.
pub const DEFAULT_FIELD_NAME_FOR_SR1_AND_N: &'static str = "default";

/// The cache key of a merchant's first success rates.
pub fn construct_sr1_key(merchant_id: &str) -> (res: String)
    ensures
        res@ == SR1_KEY_PREFIX@ + merchant_id@,
{
    cat(SR1_KEY_PREFIX, merchant_id)
}

/// The cache key of a merchant's transaction counts.
pub fn construct_n_key(merchant_id: &str) -> (res: String)
    ensures
        res@ == N_KEY_PREFIX@ + merchant_id@,
{
    cat(N_KEY_PREFIX, merchant_id)
}

/// The field of a merchant's keys that holds the values of one dimension: the payment
/// method type, then the payment method and the transaction object type as far as
/// `level` reaches, separated by `|`; none when the level needs a payment method and
/// there is none.
pub open spec fn dimension_key(
    level: FilterLevel,
    pmt: Seq<char>,
    pm: Option<Seq<char>>,
    txn_obj_type: Seq<char>,
) -> Option<Seq<char>> {
    match level {
        FilterLevel::TxnObjectType => match pm {
            Some(p) => Some(pmt + seq!['|'] + p + seq!['|'] + txn_obj_type),
            None => None,
        },
        FilterLevel::PaymentMethod => match pm {
            Some(p) => Some(pmt + seq!['|'] + p),
            None => None,
        },
        FilterLevel::PaymentMethodType => Some(pmt),
    }
}

pub fn construct_dimension_key(
    level: FilterLevel,
    pmt: &String,
    pm: &Option<String>,
    txn_obj_type: &String,
) -> (res: Option<String>)
    ensures
        opt_view(res) == dimension_key(level, pmt@, opt_view(*pm), txn_obj_type@),
{
    match level {
        FilterLevel::TxnObjectType => match pm {
            Some(p) => {
                let mut s = pmt.clone();
                crate::text::string_push(&mut s, '|');
                s.append(p.as_str());
                crate::text::string_push(&mut s, '|');
                s.append(txn_obj_type.as_str());
                Some(s)
            },
            None => None,
        },
        FilterLevel::PaymentMethod => match pm {
            Some(p) => {
                let mut s = pmt.clone();
                crate::text::string_push(&mut s, '|');
                s.append(p.as_str());
                Some(s)
            },
            None => None,
        },
        FilterLevel::PaymentMethodType => Some(pmt.clone()),
    }
}

/// Reads an optional decimal count.
pub fn text_to_int(val: Option<String>) -> (res: Option<i32>)
    ensures
        res == match val {
            Some(v) => spec_parse_i32(v@),
            None => None,
        },
{
    match val {
        Some(v) => parse_i32(v.as_str()),
        None => None,
    }
}

/// The dimensions a success-rate record (an input of the merchant or a configured
/// value) applies to.
#[derive(Debug, Clone)]
pub struct DimensionRecord {
    pub payment_method_type: String,
    pub payment_method: Option<String>,
    pub txn_object_type: Option<String>,
}

/// A record applies at `level` when it names the payment method type and exactly the
/// finer dimensions that the level reaches.
pub open spec fn record_matches(
    r: DimensionRecord,
    level: FilterLevel,
    pmt: Seq<char>,
    pm: Seq<char>,
    txn_obj_type: Seq<char>,
) -> bool {
    &&& r.payment_method_type@ == pmt
    &&& match level {
        FilterLevel::TxnObjectType => opt_view(r.payment_method) == Some(pm)
            && opt_view(r.txn_object_type) == Some(txn_obj_type),
        FilterLevel::PaymentMethod => opt_view(r.payment_method) == Some(pm)
            && r.txn_object_type is None,
        FilterLevel::PaymentMethodType => r.payment_method is None && r.txn_object_type is None,
    }
}

/// `records[i]` is the first record that applies at `level`.
pub open spec fn is_first_match(
    records: Seq<DimensionRecord>,
    i: int,
    level: FilterLevel,
    pmt: Seq<char>,
    pm: Seq<char>,
    txn_obj_type: Seq<char>,
) -> bool {
    &&& 0 <= i < records.len()
    &&& record_matches(records[i], level, pmt, pm, txn_obj_type)
    &&& forall|j: int| 0 <= j < i ==> !record_matches(#[trigger] records[j], level, pmt, pm, txn_obj_type)
}

/// The position of the first record that applies at `level`.
pub open spec fn first_match_index(
    records: Seq<DimensionRecord>,
    level: FilterLevel,
    pmt: Seq<char>,
    pm: Seq<char>,
    txn_obj_type: Seq<char>,
) -> Option<int> {
    if exists|i: int| #[trigger] is_first_match(records, i, level, pmt, pm, txn_obj_type) {
        Some(choose|i: int| #[trigger] is_first_match(records, i, level, pmt, pm, txn_obj_type))
    } else {
        None
    }
}

/// The first record that applies at `level`; levels finer than the payment method
/// type need a payment method.
pub open spec fn first_record_upto(
    level: FilterLevel,
    pmt: Seq<char>,
    pm: Option<Seq<char>>,
    txn_obj_type: Seq<char>,
    records: Seq<DimensionRecord>,
) -> Option<int> {
    match pm {
        None => if level is PaymentMethodType {
            first_match_index(records, level, pmt, Seq::empty(), txn_obj_type)
        } else {
            None
        },
        Some(p) => first_match_index(records, level, pmt, p, txn_obj_type),
    }
}

fn matches_at(
    r: &DimensionRecord,
    level: FilterLevel,
    pmt: &String,
    pm: &String,
    txn_obj_type: &String,
) -> (res: bool)
    ensures
        res == record_matches(*r, level, pmt@, pm@, txn_obj_type@),
{
    if !str_eq(r.payment_method_type.as_str(), pmt.as_str()) {
        return false;
    }
    match level {
        FilterLevel::TxnObjectType => opt_is(&r.payment_method, pm.as_str())
            && opt_is(&r.txn_object_type, txn_obj_type.as_str()),
        FilterLevel::PaymentMethod => opt_is(&r.payment_method, pm.as_str()) && r.txn_object_type.is_none(),
        FilterLevel::PaymentMethodType => r.payment_method.is_none() && r.txn_object_type.is_none(),
    }
}

/// The position of the first record that applies at `level`, if any.
pub fn filter_inputs_upto(
    level: FilterLevel,
    pmt: &String,
    pm: &Option<String>,
    txn_obj_type: &String,
    records: &Vec<DimensionRecord>,
) -> (res: Option<usize>)
    ensures
        match res {
            Some(i) => first_record_upto(level, pmt@, opt_view(*pm), txn_obj_type@, records@) == Some(i as int),
            None => first_record_upto(level, pmt@, opt_view(*pm), txn_obj_type@, records@) is None,
        },
{
    let needs_pm = match level {
        FilterLevel::PaymentMethodType => false,
        _ => true,
    };
    if needs_pm && pm.is_none() {
        return None;
    }
    let empty = String::new();
    let p: &String = match pm {
        Some(p) => p,
        None => &empty,
    };
    let ghost pv = match opt_view(*pm) { Some(x) => x, None => Seq::<char>::empty() };
    assert(p@ == pv);
    let mut i: usize = 0;
    while i < records.len()
        invariant
            i <= records.len(),
            p@ == pv,
            pv == match opt_view(*pm) { Some(x) => x, None => Seq::<char>::empty() },
            level is PaymentMethodType || pm is Some,
            forall|j: int| 0 <= j < i ==> !record_matches(#[trigger] records@[j], level, pmt@, pv, txn_obj_type@),
        decreases records.len() - i,
    {
        if matches_at(&records[i], level, pmt, p, txn_obj_type) {
            proof {
                let k = i as int;
                assert(is_first_match(records@, k, level, pmt@, pv, txn_obj_type@));
                let c = choose|c: int| #[trigger] is_first_match(records@, c, level, pmt@, pv, txn_obj_type@);
                assert(is_first_match(records@, c, level, pmt@, pv, txn_obj_type@));
                if c < k {
                    assert(!record_matches(records@[c], level, pmt@, pv, txn_obj_type@));
                }
                if k < c {
                    assert(!record_matches(records@[k], level, pmt@, pv, txn_obj_type@));
                }
            }
            return Some(i);
        }
        i = i + 1;
    }
    proof {
        if exists|c: int| #[trigger] is_first_match(records@, c, level, pmt@, pv, txn_obj_type@) {
            let c = choose|c: int| #[trigger] is_first_match(records@, c, level, pmt@, pv, txn_obj_type@);
            assert(!record_matches(records@[c], level, pmt@, pv, txn_obj_type@));
        }
    }
    None
}

/// The levels tried, most specific first.
pub open spec fn cascade_level(n: int) -> FilterLevel {
    if n == 0 {
        FilterLevel::TxnObjectType
    } else if n == 1 {
        FilterLevel::PaymentMethod
    } else {
        FilterLevel::PaymentMethodType
    }
}

/// The most specific level at which both a merchant input and a configured value apply,
/// with their positions.
pub open spec fn service_config_match(
    pmt: Seq<char>,
    pm: Option<Seq<char>>,
    txn_obj_type: Seq<char>,
    inputs: Seq<DimensionRecord>,
    configs: Seq<DimensionRecord>,
) -> Option<(FilterLevel, int, int)> {
    let at = |l: FilterLevel| (first_record_upto(l, pmt, pm, txn_obj_type, inputs), first_record_upto(l, pmt, pm, txn_obj_type, configs));
    match at(FilterLevel::TxnObjectType) {
        (Some(i), Some(c)) => Some((FilterLevel::TxnObjectType, i, c)),
        _ => match at(FilterLevel::PaymentMethod) {
            (Some(i), Some(c)) => Some((FilterLevel::PaymentMethod, i, c)),
            _ => match at(FilterLevel::PaymentMethodType) {
                (Some(i), Some(c)) => Some((FilterLevel::PaymentMethodType, i, c)),
                _ => None,
            },
        },
    }
}

fn service_config_upto(
    level: FilterLevel,
    pmt: &String,
    pm: &Option<String>,
    txn_obj_type: &String,
    inputs: &Vec<DimensionRecord>,
    configs: &Vec<DimensionRecord>,
) -> (res: Option<(usize, usize)>)
    ensures
        match res {
            Some((i, c)) => first_record_upto(level, pmt@, opt_view(*pm), txn_obj_type@, inputs@) == Some(i as int)
                && first_record_upto(level, pmt@, opt_view(*pm), txn_obj_type@, configs@) == Some(c as int),
            None => first_record_upto(level, pmt@, opt_view(*pm), txn_obj_type@, inputs@) is None
                || first_record_upto(level, pmt@, opt_view(*pm), txn_obj_type@, configs@) is None,
        },
{
    let mi = filter_inputs_upto(level, pmt, pm, txn_obj_type, inputs);
    let mc = filter_inputs_upto(level, pmt, pm, txn_obj_type, configs);
    match (mi, mc) {
        (Some(i), Some(c)) => Some((i, c)),
        _ => None,
    }
}

/// Finds the merchant input and configured value to evaluate a transaction with: the
/// first pair that applies at the transaction object type, else at the payment method,
/// else at the payment method type.
pub fn filter_using_service_config(
    pmt: &String,
    pm: &Option<String>,
    txn_obj_type: &String,
    inputs: &Vec<DimensionRecord>,
    configs: &Vec<DimensionRecord>,
) -> (res: Option<(FilterLevel, usize, usize)>)
    ensures
        match res {
            Some((l, i, c)) => service_config_match(pmt@, opt_view(*pm), txn_obj_type@, inputs@, configs@)
                == Some((l, i as int, c as int)),
            None => service_config_match(pmt@, opt_view(*pm), txn_obj_type@, inputs@, configs@) is None,
        },
{
    match service_config_upto(FilterLevel::TxnObjectType, pmt, pm, txn_obj_type, inputs, configs) {
        Some((i, c)) => Some((FilterLevel::TxnObjectType, i, c)),
        None => match service_config_upto(FilterLevel::PaymentMethod, pmt, pm, txn_obj_type, inputs, configs) {
            Some((i, c)) => Some((FilterLevel::PaymentMethod, i, c)),
            None => match service_config_upto(FilterLevel::PaymentMethodType, pmt, pm, txn_obj_type, inputs, configs) {
                Some((i, c)) => Some((FilterLevel::PaymentMethodType, i, c)),
                None => None,
            },
        },
    }
}

/// The payment method a transaction's success rates are looked up by: for UPI the
/// source object when the payment method reads `UPI` (else the payment method), for
/// anything else the payment method.
pub open spec fn elimination_payment_method(
    pmt: PaymentMethodType,
    payment_method: Seq<char>,
    source_object: Option<Seq<char>>,
) -> Option<Seq<char>> {
    if pmt is UPI && payment_method == "UPI"@ {
        source_object
    } else {
        Some(payment_method)
    }
}

pub fn eliminationPaymentMethod(
    pmt: &PaymentMethodType,
    payment_method: &String,
    source_object: &Option<String>,
) -> (res: Option<String>)
    ensures
        opt_view(res) == elimination_payment_method(*pmt, payment_method@, opt_view(*source_object)),
{
    let is_upi = match pmt {
        PaymentMethodType::UPI => true,
        _ => false,
    };
    if is_upi && str_eq(payment_method.as_str(), "UPI") {
        clone_opt(source_object)
    } else {
        Some(payment_method.clone())
    }
}

/// Two payment method types are the same: the same named type, or unknown types with
/// the same text.
pub open spec fn same_payment_method_type(a: PaymentMethodType, b: PaymentMethodType) -> bool {
    match (a, b) {
        (PaymentMethodType::UNKNOWN(x), PaymentMethodType::UNKNOWN(y)) => x@ == y@,
        (PaymentMethodType::UNKNOWN(_), _) => false,
        (_, PaymentMethodType::UNKNOWN(_)) => false,
        _ => a == b,
    }
}

pub fn samePaymentMethodType(a: &PaymentMethodType, b: &PaymentMethodType) -> (res: bool)
    ensures
        res == same_payment_method_type(*a, *b),
{
    match (a, b) {
        (PaymentMethodType::UNKNOWN(x), PaymentMethodType::UNKNOWN(y)) => str_eq(x.as_str(), y.as_str()),
        (PaymentMethodType::UNKNOWN(_), _) => false,
        (_, PaymentMethodType::UNKNOWN(_)) => false,
        (PaymentMethodType::WALLET, PaymentMethodType::WALLET) => true,
        (PaymentMethodType::UPI, PaymentMethodType::UPI) => true,
        (PaymentMethodType::NB, PaymentMethodType::NB) => true,
        (PaymentMethodType::CARD, PaymentMethodType::CARD) => true,
        (PaymentMethodType::PAYLATER, PaymentMethodType::PAYLATER) => true,
        (PaymentMethodType::CONSUMER_FINANCE, PaymentMethodType::CONSUMER_FINANCE) => true,
        (PaymentMethodType::REWARD, PaymentMethodType::REWARD) => true,
        (PaymentMethodType::CASH, PaymentMethodType::CASH) => true,
        (PaymentMethodType::AADHAAR, PaymentMethodType::AADHAAR) => true,
        (PaymentMethodType::PAPERNACH, PaymentMethodType::PAPERNACH) => true,
        (PaymentMethodType::PAN, PaymentMethodType::PAN) => true,
        (PaymentMethodType::MERCHANT_CONTAINER, PaymentMethodType::MERCHANT_CONTAINER) => true,
        (PaymentMethodType::Virtual_Account, PaymentMethodType::Virtual_Account) => true,
        (PaymentMethodType::OTC, PaymentMethodType::OTC) => true,
        (PaymentMethodType::RTP, PaymentMethodType::RTP) => true,
        (PaymentMethodType::CRYPTO, PaymentMethodType::CRYPTO) => true,
        (PaymentMethodType::CARD_QR, PaymentMethodType::CARD_QR) => true,
        _ => false,
    }
}

/// Success-rate elimination runs for a payment method type unless the merchant names
/// the types it is enabled for and this is not one of them.
pub open spec fn sr_enabled_for_payment_method_type(enabled: Seq<PaymentMethodType>, pmt: PaymentMethodType) -> bool {
    enabled.len() == 0 || exists|i: int| 0 <= i < enabled.len() && same_payment_method_type(#[trigger] enabled[i], pmt)
}

pub fn isSrEnabledForPaymentMethodType(enabled: &Vec<PaymentMethodType>, pmt: &PaymentMethodType) -> (res: bool)
    ensures
        res == sr_enabled_for_payment_method_type(enabled@, *pmt),
{
    if enabled.len() == 0 {
        return true;
    }
    let mut i: usize = 0;
    while i < enabled.len()
        invariant
            i <= enabled.len(),
            forall|j: int| 0 <= j < i ==> !same_payment_method_type(#[trigger] enabled@[j], *pmt),
        decreases enabled.len() - i,
    {
        if samePaymentMethodType(&enabled[i], pmt) {
            assert(same_payment_method_type(enabled@[i as int], *pmt));
            return true;
        }
        i = i + 1;
    }
    false
}

/// A merchant takes part in success-rate routing unless its configuration turns it off.
pub fn isMerchantEnabledGlobally(enabled_for_sr_based_routing: Option<bool>) -> (res: bool)
    ensures
        res == (enabled_for_sr_based_routing != Some(false)),
{
    match enabled_for_sr_based_routing {
        Some(false) => false,
        _ => true,
    }
}

/// Global elimination took place when there was a top gateway before it and the top
/// gateway changed.
pub fn globalEliminationOccurred(before: &Option<String>, after: &Option<String>) -> (res: bool)
    ensures
        res == (before is Some && opt_view(*before) != opt_view(*after)),
{
    match (before, after) {
        (Some(b), Some(a)) => !str_eq(b.as_str(), a.as_str()),
        (Some(_), None) => true,
        (None, _) => false,
    }
}

/// Merchant-level elimination changed the decision when the top gateway is known before
/// and after it and differs.
pub fn merchantEliminationOccurred(before: &Option<String>, after: &Option<String>) -> (res: bool)
    ensures
        res == (before is Some && after is Some && opt_view(*before) != opt_view(*after)),
{
    match (before, after) {
        (Some(b), Some(a)) => !str_eq(b.as_str(), a.as_str()),
        _ => false,
    }
}

/// The elimination levels that changed the decision, finest first.
pub open spec fn sr_elimination_approach_info(gateway_level: bool, merchant: bool, global: bool) -> Seq<Seq<char>> {
    (if gateway_level { seq!["GATEWAY"@] } else { Seq::empty() })
        + (if merchant { seq!["MERCHANT"@] } else { Seq::empty() })
        + (if global { seq!["GLOBAL"@] } else { Seq::empty() })
}

pub fn srEliminationApproachInfo(gateway_level: bool, merchant: bool, global: bool) -> (res: Vec<String>)
    ensures
        views(res@) == sr_elimination_approach_info(gateway_level, merchant, global),
{
    let mut v: Vec<String> = Vec::new();
    if gateway_level {
        v.push(String::from_str("GATEWAY"));
    }
    if merchant {
        v.push(String::from_str("MERCHANT"));
    }
    if global {
        v.push(String::from_str("GLOBAL"));
    }
    assert(views(v@) =~= sr_elimination_approach_info(gateway_level, merchant, global));
    v
}

/// Which score map the scoring keeps after success-rate elimination.
#[derive(Debug, Clone, Copy, PartialEq, Eq, Structural)]
pub enum ScoreSource {
    /// The scores after elimination.
    Evaluated,
    /// The scores given before elimination, by priority logic.
    Initial,
}

/// How an elimination is classified: every gateway eliminated (with more than one) is
/// an all-downtime, where the merchant may ask for the scores (when success-rate
/// metrics are on) or the priority order, and no elimination levels are reported;
/// otherwise a global elimination, a merchant elimination, or none.
pub open spec fn downtime_outcome(
    eliminated_count: int,
    scored_count: int,
    global_eliminated_any: bool,
    optimization_during_downtime: bool,
    sr_metric_enabled: bool,
) -> (ScoreSource, DownTime, bool) {
    if eliminated_count > 1 && scored_count == eliminated_count {
        if optimization_during_downtime {
            if sr_metric_enabled {
                (ScoreSource::Evaluated, DownTime::ALL_DOWNTIME, false)
            } else {
                (ScoreSource::Initial, DownTime::ALL_DOWNTIME, false)
            }
        } else {
            (ScoreSource::Evaluated, DownTime::ALL_DOWNTIME, true)
        }
    } else if global_eliminated_any {
        (ScoreSource::Evaluated, DownTime::GLOBAL_DOWNTIME, true)
    } else if eliminated_count > 0 {
        (ScoreSource::Evaluated, DownTime::DOWNTIME, true)
    } else {
        (ScoreSource::Evaluated, DownTime::NO_DOWNTIME, true)
    }
}

/// The score map to keep, the downtime found, and whether the elimination levels are
/// reported.
pub fn downtimeOutcome(
    eliminated_count: usize,
    scored_count: usize,
    global_eliminated_any: bool,
    optimization_during_downtime: bool,
    sr_metric_enabled: bool,
) -> (res: (ScoreSource, DownTime, bool))
    ensures
        res == downtime_outcome(
            eliminated_count as int,
            scored_count as int,
            global_eliminated_any,
            optimization_during_downtime,
            sr_metric_enabled,
        ),
{
    if eliminated_count > 1 && scored_count == eliminated_count {
        if optimization_during_downtime {
            if sr_metric_enabled {
                (ScoreSource::Evaluated, DownTime::ALL_DOWNTIME, false)
            } else {
                (ScoreSource::Initial, DownTime::ALL_DOWNTIME, false)
            }
        } else {
            (ScoreSource::Evaluated, DownTime::ALL_DOWNTIME, true)
        }
    } else if global_eliminated_any {
        (ScoreSource::Evaluated, DownTime::GLOBAL_DOWNTIME, true)
    } else if eliminated_count > 0 {
        (ScoreSource::Evaluated, DownTime::DOWNTIME, true)
    } else {
        (ScoreSource::Evaluated, DownTime::NO_DOWNTIME, true)
    }
}

/// What scoring by the v3 success rates does once the scores are known.
#[derive(Debug, Clone, Copy, PartialEq, Eq, Structural)]
pub struct SrV3ScoringDecision {
    pub approach: GatewayDeciderApproach,
    /// Part of the traffic is sent to a random gateway.
    pub route_random_traffic: bool,
    /// The transaction is recorded for the debug view.
    pub track_for_debug: bool,
}

/// With no v3 scores the decision falls back to priority logic; else exploration is
/// reported as hedging and exploitation as v3 routing, random traffic is routed only
/// when the merchant asks for it outside explore-and-exploit, and a transaction with
/// several scored gateways is tracked unless it exploits.
pub open spec fn sr_v3_scoring_decision(
    scored_count: int,
    should_explore: bool,
    explore_and_exploit_enabled: bool,
    route_random_traffic_enabled: bool,
) -> Option<SrV3ScoringDecision> {
    if scored_count == 0 {
        None
    } else {
        Some(SrV3ScoringDecision {
            approach: if should_explore {
                GatewayDeciderApproach::SR_V3_HEDGING
            } else {
                GatewayDeciderApproach::SR_SELECTION_V3_ROUTING
            },
            route_random_traffic: route_random_traffic_enabled && !explore_and_exploit_enabled,
            track_for_debug: scored_count > 1 && (!explore_and_exploit_enabled || should_explore),
        })
    }
}

pub fn srV3ScoringDecision(
    scored_count: usize,
    should_explore: bool,
    explore_and_exploit_enabled: bool,
    route_random_traffic_enabled: bool,
) -> (res: Option<SrV3ScoringDecision>)
    ensures
        res == sr_v3_scoring_decision(
            scored_count as int,
            should_explore,
            explore_and_exploit_enabled,
            route_random_traffic_enabled,
        ),
{
    if scored_count == 0 {
        None
    } else {
        let approach = if should_explore {
            GatewayDeciderApproach::SR_V3_HEDGING
        } else {
            GatewayDeciderApproach::SR_SELECTION_V3_ROUTING
        };
        Some(SrV3ScoringDecision {
            approach: approach,
            route_random_traffic: route_random_traffic_enabled && !explore_and_exploit_enabled,
            track_for_debug: scored_count > 1 && (!explore_and_exploit_enabled || should_explore),
        })
    }
}

/// The successes counted in a gateway's v3 window: the cached count when it reads as a
/// number, else a full window.
pub fn srV3SuccessCount(cached_count: Option<String>, bucket_size: i32) -> (res: i32)
    ensures
        res == match cached_count {
            Some(c) => match spec_parse_i32(c@) {
                Some(n) => n,
                None => bucket_size,
            },
            None => bucket_size,
        },
{
    match text_to_int(cached_count) {
        Some(n) => n,
        None => bucket_size,
    }
}

/// A gateway's score is reset when it was last reset longer ago than the key's time to
/// live (`now_secs` in seconds, the others in milliseconds); a score never reset is not.
pub open spec fn should_reset_gateway_score(now_secs: int, last_reset_ms: Option<i64>, key_ttl_ms: int) -> bool {
    match last_reset_ms {
        Some(t) => now_secs * 1000 - t > key_ttl_ms,
        None => false,
    }
}

/// Whether one gateway's score is reset: it was last reset longer ago than the key's
/// time to live.
pub fn shouldResetGatewayScore(now_secs: i64, last_reset_ms: Option<i64>, key_ttl_ms: i64) -> (res: bool)
    ensures
        res == should_reset_gateway_score(now_secs as int, last_reset_ms, key_ttl_ms as int),
{
    match last_reset_ms {
        Some(t) => (now_secs as i128) * 1000 - (t as i128) > (key_ttl_ms as i128),
        None => false,
    }
}

/// The reset approach recorded once elimination resets scores: a success-rate reset
/// already recorded becomes the matching elimination reset; anything else an
/// elimination reset.
pub fn eliminationResetApproach(current: ResetApproach) -> (res: ResetApproach)
    ensures
        res == match current {
            ResetApproach::SRV2_RESET => ResetApproach::SRV2_ELIMINATION_RESET,
            ResetApproach::SRV3_RESET => ResetApproach::SRV3_ELIMINATION_RESET,
            _ => ResetApproach::ELIMINATION_RESET,
        },
{
    match current {
        ResetApproach::SRV2_RESET => ResetApproach::SRV2_ELIMINATION_RESET,
        ResetApproach::SRV3_RESET => ResetApproach::SRV3_ELIMINATION_RESET,
        _ => ResetApproach::ELIMINATION_RESET,
    }
}

/// What a success-rate routing input says of its default global elimination level:
/// whether it is anything but `NONE` (an unset level counts as not `NONE`), and whether
/// it is `FORCED_PAYMENT_METHOD`.
#[derive(Debug, Clone, Copy, PartialEq, Eq, Structural)]
pub struct GlobalLevelFlags {
    pub level_not_none: bool,
    pub forced_payment_method: bool,
}

/// Where the global routing defaults come from: each default of the merchant's input,
/// else the global one; the global input's; or the merchant input's.
#[derive(Debug, Clone, Copy, PartialEq, Eq, Structural)]
pub enum GlobalDefaultsSource {
    MerchantOverGlobal,
    Global,
    Merchant,
}

/// Why global routing is not enabled.
#[derive(Debug, Clone, Copy, PartialEq, Eq, Structural)]
pub enum GlobalDefaultsRefusal {
    /// Both inputs are present, but one of them turns global elimination off and the
    /// merchant does not force it.
    BothPresent,
    /// Only the global input is present, and it turns global elimination off.
    OnlyGlobal,
    /// Only the merchant's input is present, and it does not force global elimination.
    OnlyMerchant,
    /// Neither input is present.
    NotPresent,
}

pub open spec fn sr_global_routing_defaults(
    global: Option<GlobalLevelFlags>,
    merchant: Option<GlobalLevelFlags>,
) -> Result<GlobalDefaultsSource, GlobalDefaultsRefusal> {
    match (global, merchant) {
        (Some(g), Some(m)) => if (g.level_not_none && m.level_not_none) || m.forced_payment_method {
            Ok(GlobalDefaultsSource::MerchantOverGlobal)
        } else {
            Err(GlobalDefaultsRefusal::BothPresent)
        },
        (Some(g), None) => if g.level_not_none {
            Ok(GlobalDefaultsSource::Global)
        } else {
            Err(GlobalDefaultsRefusal::OnlyGlobal)
        },
        (None, Some(m)) => if m.forced_payment_method {
            Ok(GlobalDefaultsSource::Merchant)
        } else {
            Err(GlobalDefaultsRefusal::OnlyMerchant)
        },
        (None, None) => Err(GlobalDefaultsRefusal::NotPresent),
    }
}

/// Whether global success-rate routing applies and where its defaults come from, from
/// the global and the merchant's level settings; a refusal says which were present.
pub fn checkSrGlobalRoutingDefaults(
    global: Option<GlobalLevelFlags>,
    merchant: Option<GlobalLevelFlags>,
) -> (res: Result<GlobalDefaultsSource, GlobalDefaultsRefusal>)
    ensures
        res == sr_global_routing_defaults(global, merchant),
{
    match (global, merchant) {
        (Some(g), Some(m)) => if (g.level_not_none && m.level_not_none) || m.forced_payment_method {
            Ok(GlobalDefaultsSource::MerchantOverGlobal)
        } else {
            Err(GlobalDefaultsRefusal::BothPresent)
        },
        (Some(g), None) => if g.level_not_none {
            Ok(GlobalDefaultsSource::Global)
        } else {
            Err(GlobalDefaultsRefusal::OnlyGlobal)
        },
        (None, Some(m)) => if m.forced_payment_method {
            Ok(GlobalDefaultsSource::Merchant)
        } else {
            Err(GlobalDefaultsRefusal::OnlyMerchant)
        },
        (None, None) => Err(GlobalDefaultsRefusal::NotPresent),
    }
}

/// One global routing default: the merchant's when it sets one, else the global one.
pub fn globalDefault<T>(merchant: Option<T>, global: Option<T>) -> (res: Option<T>)
    ensures
        res == match merchant {
            Some(m) => Some(m),
            None => global,
        },
{
    match merchant {
        Some(m) => Some(m),
        None => global,
    }
}

/// The dimension keys nest: the payment-method-type key is the payment method type
/// alone, whatever the payment method and object type; the payment-method key extends
/// it by `|` and the payment method; the object-type key extends that by `|` and the
/// transaction object type. Without a payment method only the type-level key exists.
pub proof fn lemma_dimension_keys_nest(pmt: Seq<char>, pm: Option<Seq<char>>, txn_obj_type: Seq<char>)
    ensures
        dimension_key(FilterLevel::PaymentMethodType, pmt, pm, txn_obj_type) == Some(pmt),
        pm matches Some(p) ==> dimension_key(FilterLevel::PaymentMethod, pmt, pm, txn_obj_type)
            == Some(pmt + seq!['|'] + p),
        pm matches Some(p) ==> dimension_key(FilterLevel::TxnObjectType, pmt, pm, txn_obj_type)
            == Some(pmt + seq!['|'] + p + seq!['|'] + txn_obj_type),
        pm is None ==> dimension_key(FilterLevel::PaymentMethod, pmt, pm, txn_obj_type) is None,
        pm is None ==> dimension_key(FilterLevel::TxnObjectType, pmt, pm, txn_obj_type) is None,
{
}

/// The payment-method-type key does not depend on the payment method or the object
/// type: two transactions of one payment method type share it.
pub proof fn lemma_type_level_key_ignores_method(
    pmt: Seq<char>,
    pm1: Option<Seq<char>>,
    pm2: Option<Seq<char>>,
    t1: Seq<char>,
    t2: Seq<char>,
)
    ensures
        dimension_key(FilterLevel::PaymentMethodType, pmt, pm1, t1)
            == dimension_key(FilterLevel::PaymentMethodType, pmt, pm2, t2),
{
}

/// With v3 scores, exploring is reported as hedging and anything else as v3 routing;
/// without scores there is no decision. Random traffic is routed exactly when the
/// merchant enables it and explore-and-exploit is off, and a transaction is tracked
/// for the debug view exactly when more than one gateway was scored and it does not
/// merely exploit under explore-and-exploit.
pub proof fn lemma_sr_v3_scoring_decision_parts(
    scored_count: nat,
    should_explore: bool,
    explore_and_exploit_enabled: bool,
    route_random_traffic_enabled: bool,
)
    ensures
        ({
            let r = sr_v3_scoring_decision(scored_count as int, should_explore, explore_and_exploit_enabled,
                route_random_traffic_enabled);
            &&& (r is None <==> scored_count == 0)
            &&& r matches Some(d) ==> {
                &&& (d.approach == GatewayDeciderApproach::SR_V3_HEDGING <==> should_explore)
                &&& (d.approach == GatewayDeciderApproach::SR_SELECTION_V3_ROUTING <==> !should_explore)
                &&& (d.route_random_traffic <==> (route_random_traffic_enabled && !explore_and_exploit_enabled))
                &&& (d.track_for_debug <==> (scored_count > 1 && (!explore_and_exploit_enabled || should_explore)))
            }
        }),
{
}

/// Random traffic never depends on whether the transaction explores or how many
/// gateways were scored: any two decisions for the same merchant settings agree on it.
pub proof fn lemma_random_traffic_only_from_settings(
    n1: nat,
    n2: nat,
    explore1: bool,
    explore2: bool,
    explore_and_exploit_enabled: bool,
    route_random_traffic_enabled: bool,
)
    requires
        n1 > 0,
        n2 > 0,
    ensures
        sr_v3_scoring_decision(n1 as int, explore1, explore_and_exploit_enabled, route_random_traffic_enabled)->0.route_random_traffic
            == sr_v3_scoring_decision(n2 as int, explore2, explore_and_exploit_enabled, route_random_traffic_enabled)->0.route_random_traffic,
        !route_random_traffic_enabled
            ==> !sr_v3_scoring_decision(n1 as int, explore1, explore_and_exploit_enabled, route_random_traffic_enabled)->0.route_random_traffic,
{
}

/// Global routing takes the merchant's defaults over the global ones exactly when both
/// inputs are present and either both levels are set or the merchant forces the payment
/// method; a merchant whose level is none and who does not force it turns global
/// routing off whatever the global input says. One input alone enables it only when
/// the global level is set, or the merchant forces the payment method; with neither
/// input it is off.
pub proof fn lemma_sr_global_routing_defaults_cases(global: Option<GlobalLevelFlags>, merchant: Option<GlobalLevelFlags>)
    ensures
        ({
            let r = sr_global_routing_defaults(global, merchant);
            &&& (r == Ok::<GlobalDefaultsSource, GlobalDefaultsRefusal>(GlobalDefaultsSource::MerchantOverGlobal) <==> (
                global matches Some(g) && merchant matches Some(m)
                    && ((g.level_not_none && m.level_not_none) || m.forced_payment_method)))
            &&& (r == Ok::<GlobalDefaultsSource, GlobalDefaultsRefusal>(GlobalDefaultsSource::Global) <==> (
                global matches Some(g) && merchant is None && g.level_not_none))
            &&& (r == Ok::<GlobalDefaultsSource, GlobalDefaultsRefusal>(GlobalDefaultsSource::Merchant) <==> (
                global is None && (merchant matches Some(m) && m.forced_payment_method)))
            &&& ((global is Some && (merchant matches Some(m) && !m.level_not_none && !m.forced_payment_method))
                ==> r == Err::<GlobalDefaultsSource, GlobalDefaultsRefusal>(GlobalDefaultsRefusal::BothPresent))
            &&& ((global is None && merchant is None)
                ==> r == Err::<GlobalDefaultsSource, GlobalDefaultsRefusal>(GlobalDefaultsRefusal::NotPresent))
            &&& (r is Ok ==> (merchant matches Some(m) && m.forced_payment_method)
                || (global matches Some(g) && g.level_not_none))
        }),
{
}

} // verus!
