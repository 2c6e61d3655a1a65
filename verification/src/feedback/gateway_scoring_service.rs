//! Which score updates a finished transaction triggers.
use vstd::prelude::*;
use crate::text::{is_infix_of, contains_str_pattern};
use crate::feedback::types::{TxnStatus, PaymentMethodType};
use crate::feedback::utils::GatewayScoringType;
use crate::decider::gw_filter::{contains_str, views};

verus! {

/// The statuses of transactions that succeeded.
pub open spec fn txn_success_states() -> Seq<TxnStatus> {
    seq![
        TxnStatus::CHARGED,
        TxnStatus::AUTHORIZED,
        TxnStatus::COD_INITIATED,
        TxnStatus::VOIDED,
        TxnStatus::VOID_INITIATED,
        TxnStatus::CAPTURE_INITIATED,
        TxnStatus::CAPTURE_FAILED,
        TxnStatus::VOID_FAILED,
        TxnStatus::AUTO_REFUNDED,
        TxnStatus::PARTIAL_CHARGED,
        TxnStatus::TO_BE_CHARGED,
    ]
}

/// The statuses of transactions that failed.
pub open spec fn txn_failure_states() -> Seq<TxnStatus> {
    seq![
        TxnStatus::AUTHENTICATION_FAILED,
        TxnStatus::AUTHORIZATION_FAILED,
        TxnStatus::JUSPAY_DECLINED,
        TxnStatus::FAILURE,
    ]
}

pub fn txnSuccessStates() -> (res: Vec<TxnStatus>)
    ensures
        res@ == txn_success_states(),
{
    let v = vec![
        TxnStatus::CHARGED,
        TxnStatus::AUTHORIZED,
        TxnStatus::COD_INITIATED,
        TxnStatus::VOIDED,
        TxnStatus::VOID_INITIATED,
        TxnStatus::CAPTURE_INITIATED,
        TxnStatus::CAPTURE_FAILED,
        TxnStatus::VOID_FAILED,
        TxnStatus::AUTO_REFUNDED,
        TxnStatus::PARTIAL_CHARGED,
        TxnStatus::TO_BE_CHARGED,
    ];
    assert(v@ =~= txn_success_states());
    v
}

pub fn txnFailureStates() -> (res: Vec<TxnStatus>)
    ensures
        res@ == txn_failure_states(),
{
    let v = vec![
        TxnStatus::AUTHENTICATION_FAILED,
        TxnStatus::AUTHORIZATION_FAILED,
        TxnStatus::JUSPAY_DECLINED,
        TxnStatus::FAILURE,
    ];
    assert(v@ =~= txn_failure_states());
    v
}

/// No status counts both as a success and as a failure.
pub proof fn lemma_success_and_failure_states_disjoint(s: TxnStatus)
    ensures
        !(txn_success_states().contains(s) && txn_failure_states().contains(s)),
{
    if txn_success_states().contains(s) && txn_failure_states().contains(s) {
        let i = choose|i: int| 0 <= i < txn_success_states().len() && txn_success_states()[i] == s;
        let j = choose|j: int| 0 <= j < txn_failure_states().len() && txn_failure_states()[j] == s;
        assert(txn_success_states()[i] == txn_failure_states()[j]);
    }
}

/// A penalty applies only while the transaction waits for 3-D Secure authentication.
pub fn isTransactionPending(txnStatus: TxnStatus) -> (res: bool)
    ensures
        res == (txnStatus == TxnStatus::PENDING_VBV),
{
    txnStatus == TxnStatus::PENDING_VBV
}

/// Whether the recorded routing approach holds `pat`.
pub open spec fn approach_mentions(maybe_text: Option<String>, pat: Seq<char>) -> bool {
    match maybe_text {
        Some(t) => is_infix_of(pat, t@),
        None => false,
    }
}

/// The transaction was routed by success rate v2.
pub fn isRoutingApproachInSRV2(maybe_text: Option<String>) -> (res: bool)
    ensures
        res == approach_mentions(maybe_text, "V2"@),
{
    match maybe_text {
        Some(text) => contains_str_pattern(text.as_str(), "V2"),
        None => false,
    }
}

/// The transaction was routed by success rate v3.
pub fn isRoutingApproachInSRV3(maybe_text: Option<String>) -> (res: bool)
    ensures
        res == approach_mentions(maybe_text, "V3"@),
{
    match maybe_text {
        Some(text) => contains_str_pattern(text.as_str(), "V3"),
        None => false,
    }
}

/// The transaction was routed to explore another gateway (hedging).
pub fn isRoutingApproachInExplore(maybe_text: Option<String>) -> (res: bool)
    ensures
        res == approach_mentions(maybe_text, "HEDGING"@),
{
    match maybe_text {
        Some(text) => contains_str_pattern(text.as_str(), "HEDGING"),
        None => false,
    }
}

/// Mandate transactions skip the latency window: recurring payments, and net-banking
/// registrations that only move a penny.
pub fn checkExemptIfMandateTxn(is_recurring: bool, payment_method_type: &Option<PaymentMethodType>, is_penny_reg_txn: bool) -> (res: bool)
    ensures
        res == (is_recurring || ((payment_method_type matches Some(p) && p is NB) && is_penny_reg_txn)),
{
    let is_nb_pmt = match payment_method_type {
        Some(PaymentMethodType::NB) => true,
        _ => false,
    };
    is_recurring || (is_nb_pmt && is_penny_reg_txn)
}

/// The default window, in minutes, within which a transaction may still move scores.
pub const DEFAULT_GATEWAY_SCORE_LATENCY_CHECK_IN_MINS: i32 = 15;

/// Whether a score update arrives within the latency window. Penalties always do; so
/// do exempt mandate transactions and transactions of an exempt gateway or of none.
/// Otherwise the update must come less than `threshold_mins` minutes after the
/// transaction was created (`latency_ms` milliseconds ago).
pub open spec fn within_latency_window(
    gateway_scoring_type: GatewayScoringType,
    exempt_for_mandate_txn: bool,
    gateway: Option<Seq<char>>,
    exempt_gateways: Seq<Seq<char>>,
    latency_ms: int,
    threshold_mins: int,
) -> bool {
    if gateway_scoring_type == GatewayScoringType::PENALISE {
        true
    } else if exempt_for_mandate_txn || (match gateway { Some(g) => exempt_gateways.contains(g), None => true }) {
        true
    } else {
        latency_ms < threshold_mins * 60000
    }
}

pub fn isUpdateWithinLatencyWindow(
    gateway_scoring_type: GatewayScoringType,
    exempt_for_mandate_txn: bool,
    gateway: &Option<String>,
    exempt_gateways: &Vec<String>,
    latency_ms: i64,
    threshold_mins: i32,
) -> (res: bool)
    ensures
        res == within_latency_window(
            gateway_scoring_type,
            exempt_for_mandate_txn,
            match gateway { Some(g) => Some(g@), None => None::<Seq<char>> },
            views(exempt_gateways@),
            latency_ms as int,
            threshold_mins as int,
        ),
{
    match gateway_scoring_type {
        GatewayScoringType::PENALISE => true,
        _ => {
            let gateway_exempt = match gateway {
                Some(gw) => contains_str(exempt_gateways, gw),
                None => true,
            };
            if exempt_for_mandate_txn || gateway_exempt {
                true
            } else {
                (latency_ms as i128) < (threshold_mins as i128) * 60000
            }
        },
    }
}

/// The score updates that one finished transaction makes.
#[derive(Debug, Clone, Copy, PartialEq, Eq, Structural)]
pub struct ScoreUpdatePlan {
    /// The SR v3 moving windows are updated.
    pub update_sr_v3: bool,
    /// The elimination keys are updated.
    pub update_elimination: bool,
}

/// What a transaction's outcome updates. Elimination scores move on rewards, and on
/// penalties only for a transaction still pending; SR v3 windows move on anything but a
/// plain penalty, and only for transactions of the SR v3 flow when producers are
/// isolated and of the explore flow when explore-and-exploit is on. Both need the
/// payment method and its type, and an update that arrives within the latency window.
pub open spec fn score_update_plan(
    gateway_scoring_type: GatewayScoringType,
    txn_status: TxnStatus,
    is_pm_and_pmt_present: bool,
    is_update_within_window: bool,
    isolate_srv3_producer: bool,
    explore_and_exploit_enabled: bool,
    routing_approach: Option<String>,
) -> ScoreUpdatePlan {
    let should_update_gateway_score = if gateway_scoring_type == GatewayScoringType::PENALISE_SRV3 {
        false
    } else if gateway_scoring_type == GatewayScoringType::PENALISE {
        txn_status == TxnStatus::PENDING_VBV
    } else {
        true
    };
    let should_update_srv3 = gateway_scoring_type != GatewayScoringType::PENALISE;
    let within = is_pm_and_pmt_present && is_update_within_window;
    let isolate_ok = !isolate_srv3_producer || approach_mentions(routing_approach, "V3"@);
    let explore_ok = !explore_and_exploit_enabled || approach_mentions(routing_approach, "HEDGING"@);
    ScoreUpdatePlan {
        update_sr_v3: should_update_srv3 && within && isolate_ok && explore_ok,
        update_elimination: should_update_gateway_score && within,
    }
}

/// Decides which scores a finished transaction updates. `is_update_within_window` is
/// what [`isUpdateWithinLatencyWindow`] gave; it counts only when the payment method and
/// its type are present.
pub fn scoreUpdatePlan(
    gateway_scoring_type: GatewayScoringType,
    txn_status: TxnStatus,
    is_pm_and_pmt_present: bool,
    is_update_within_window: bool,
    isolate_srv3_producer: bool,
    explore_and_exploit_enabled: bool,
    routing_approach: &Option<String>,
) -> (res: ScoreUpdatePlan)
    ensures
        res == score_update_plan(
            gateway_scoring_type,
            txn_status,
            is_pm_and_pmt_present,
            is_update_within_window,
            isolate_srv3_producer,
            explore_and_exploit_enabled,
            *routing_approach,
        ),
{
    let should_update_gateway_score = if gateway_scoring_type == GatewayScoringType::PENALISE_SRV3 {
        false
    } else if gateway_scoring_type == GatewayScoringType::PENALISE {
        isTransactionPending(txn_status)
    } else {
        true
    };
    let should_update_srv3_gateway_score = gateway_scoring_type != GatewayScoringType::PENALISE;
    let is_update_within_window = is_pm_and_pmt_present && is_update_within_window;
    let should_isolate_srv3_producer = if isolate_srv3_producer {
        isRoutingApproachInSRV3(routing_approach.clone())
    } else {
        true
    };
    let should_update_explore_txn = if explore_and_exploit_enabled {
        isRoutingApproachInExplore(routing_approach.clone())
    } else {
        true
    };
    ScoreUpdatePlan {
        update_sr_v3: should_update_srv3_gateway_score && is_update_within_window
            && should_isolate_srv3_producer && should_update_explore_txn,
        update_elimination: should_update_gateway_score && is_update_within_window,
    }
}

/// The SR v3 windows move exactly when the outcome is not a plain penalty, the payment
/// method and its type are present, the update is within the latency window, the
/// routing approach mentions `V3` if producers are isolated, and it mentions `HEDGING`
/// if explore-and-exploit is on. The elimination keys move exactly when the payment
/// method and type are present, the update is within the window, and the outcome is a
/// reward or a penalty of a transaction pending authentication.
pub proof fn lemma_score_update_plan_conditions(
    gateway_scoring_type: GatewayScoringType,
    txn_status: TxnStatus,
    is_pm_and_pmt_present: bool,
    is_update_within_window: bool,
    isolate_srv3_producer: bool,
    explore_and_exploit_enabled: bool,
    routing_approach: Option<String>,
)
    ensures
        ({
            let p = score_update_plan(gateway_scoring_type, txn_status, is_pm_and_pmt_present,
                is_update_within_window, isolate_srv3_producer, explore_and_exploit_enabled, routing_approach);
            &&& (p.update_sr_v3 <==> (
                gateway_scoring_type != GatewayScoringType::PENALISE
                && is_pm_and_pmt_present
                && is_update_within_window
                && (isolate_srv3_producer ==> (routing_approach matches Some(t) && is_infix_of("V3"@, t@)))
                && (explore_and_exploit_enabled ==> (routing_approach matches Some(t) && is_infix_of("HEDGING"@, t@)))))
            &&& (p.update_elimination <==> (
                is_pm_and_pmt_present
                && is_update_within_window
                && (gateway_scoring_type == GatewayScoringType::REWARD
                    || (gateway_scoring_type == GatewayScoringType::PENALISE && txn_status == TxnStatus::PENDING_VBV))))
        }),
{
}

/// Isolation and explore-and-exploit only hold the SR v3 update back: the elimination
/// update is the same whatever they and the routing approach are, and turning either
/// off never takes an SR v3 update away.
pub proof fn lemma_score_update_plan_gates(
    gateway_scoring_type: GatewayScoringType,
    txn_status: TxnStatus,
    is_pm_and_pmt_present: bool,
    is_update_within_window: bool,
    isolate1: bool,
    isolate2: bool,
    explore1: bool,
    explore2: bool,
    approach1: Option<String>,
    approach2: Option<String>,
)
    ensures
        score_update_plan(gateway_scoring_type, txn_status, is_pm_and_pmt_present, is_update_within_window,
            isolate1, explore1, approach1).update_elimination
            == score_update_plan(gateway_scoring_type, txn_status, is_pm_and_pmt_present, is_update_within_window,
            isolate2, explore2, approach2).update_elimination,
        score_update_plan(gateway_scoring_type, txn_status, is_pm_and_pmt_present, is_update_within_window,
            isolate1, explore1, approach1).update_sr_v3
            ==> score_update_plan(gateway_scoring_type, txn_status, is_pm_and_pmt_present, is_update_within_window,
            false, false, approach1).update_sr_v3,
        (isolate1 && !(approach1 matches Some(t) && is_infix_of("V3"@, t@)))
            ==> !score_update_plan(gateway_scoring_type, txn_status, is_pm_and_pmt_present, is_update_within_window,
            isolate1, explore1, approach1).update_sr_v3,
{
}

} // verus!
