//! Bookkeeping of the elimination scores that the feedback consumer keeps per key.
use vstd::prelude::*;
use crate::decider::types::ScoreKeyType;
use crate::feedback::utils::GatewayScoringType;
use crate::decider::gw_filter::{contains_str, views};

verus! {

/// Scores of global keys are shared by all merchants.
pub open spec fn is_global_key(t: ScoreKeyType) -> bool {
    t == ScoreKeyType::ELIMINATION_GLOBAL_KEY || t == ScoreKeyType::OUTAGE_GLOBAL_KEY
}

/// Outage keys track gateway outages rather than elimination.
pub open spec fn is_outage_key(t: ScoreKeyType) -> bool {
    t == ScoreKeyType::OUTAGE_GLOBAL_KEY || t == ScoreKeyType::OUTAGE_MERCHANT_KEY
}

pub fn isGlobalKey(scoreKeyType: ScoreKeyType) -> (res: bool)
    ensures
        res == is_global_key(scoreKeyType),
{
    scoreKeyType == ScoreKeyType::ELIMINATION_GLOBAL_KEY || scoreKeyType == ScoreKeyType::OUTAGE_GLOBAL_KEY
}

pub fn isKeyOutage(scoreKeyType: ScoreKeyType) -> (res: bool)
    ensures
        res == is_outage_key(scoreKeyType),
{
    scoreKeyType == ScoreKeyType::OUTAGE_GLOBAL_KEY || scoreKeyType == ScoreKeyType::OUTAGE_MERCHANT_KEY
}

/// Time to live, in milliseconds, of a merchant-level score key when none is configured.
pub const DEFAULT_SCORE_KEYS_TTL: i32 = 9000000;
/// Time to live, in milliseconds, of a global score key when none is configured.
pub const DEFAULT_SCORE_GLOBAL_KEYS_TTL: i32 = 1800000;
/// How many merchants a global score keeps details for when no limit is configured.
pub const DEFAULT_MERCHANT_ARR_MAX_LENGTH: i32 = 40;

/// The time to live of a key kind when the configuration sets none.
pub fn getDefaultTTL(score_key_type: ScoreKeyType) -> (res: i32)
    ensures
        res == if is_global_key(score_key_type) { DEFAULT_SCORE_GLOBAL_KEYS_TTL } else { DEFAULT_SCORE_KEYS_TTL },
{
    if isGlobalKey(score_key_type) {
        DEFAULT_SCORE_GLOBAL_KEYS_TTL
    } else {
        DEFAULT_SCORE_KEYS_TTL
    }
}

/// The configuration entry that holds the time to live of a key kind.
pub open spec fn ttl_config_key(t: ScoreKeyType) -> Seq<char> {
    if is_global_key(t) && is_outage_key(t) {
        "gateway_score_global_outage_ttl"@
    } else if !is_global_key(t) && is_outage_key(t) {
        "gateway_score_outage_ttl"@
    } else if is_global_key(t) && !is_outage_key(t) {
        "gateway_score_global_ttl"@
    } else {
        "gateway_score_third_dimension_ttl"@
    }
}

/// Names the configuration entry to read for the time to live of a key kind.
pub fn ttlConfigKey(score_key_type: ScoreKeyType) -> (res: &'static str)
    ensures
        res@ == ttl_config_key(score_key_type),
{
    let is_key_global = isGlobalKey(score_key_type);
    let is_outage_key = isKeyOutage(score_key_type);
    if is_key_global && is_outage_key {
        "gateway_score_global_outage_ttl"
    } else if !is_key_global && is_outage_key {
        "gateway_score_outage_ttl"
    } else if is_key_global && !is_outage_key {
        "gateway_score_global_ttl"
    } else {
        "gateway_score_third_dimension_ttl"
    }
}

/// The time to live of a key kind: the configured one (read from the entry that
/// [`ttlConfigKey`] names, rounded down to whole milliseconds) or the default.
pub fn getTTLForKey(score_key_type: ScoreKeyType, configured_ttl: Option<i32>) -> (res: i32)
    ensures
        match configured_ttl {
            Some(t) => res == t,
            None => res == if is_global_key(score_key_type) { DEFAULT_SCORE_GLOBAL_KEYS_TTL } else { DEFAULT_SCORE_KEYS_TTL },
        },
{
    match configured_ttl {
        Some(t) => t,
        None => getDefaultTTL(score_key_type),
    }
}

/// The configured length limit of a global key's merchant array, or 40.
pub fn getMerchantArrMaxLength(configured: Option<i32>) -> (res: i32)
    ensures
        res == match configured {
            Some(n) => n,
            None => DEFAULT_MERCHANT_ARR_MAX_LENGTH,
        },
{
    match configured {
        Some(n) => n,
        None => DEFAULT_MERCHANT_ARR_MAX_LENGTH,
    }
}

/// The transaction count after one more update: global keys keep none, a key without
/// a count starts at one, and only a penalty adds to an existing count.
pub open spec fn next_transaction_count(
    previous: Option<u64>,
    score_key_type: ScoreKeyType,
    gateway_scoring_type: GatewayScoringType,
) -> Option<int> {
    if is_global_key(score_key_type) {
        None
    } else {
        match previous {
            None => Some(1),
            Some(c) => if gateway_scoring_type == GatewayScoringType::PENALISE { Some(c + 1) } else { Some(c as int) },
        }
    }
}

pub fn getTransactionCount(
    previous_transaction_count: Option<u64>,
    score_key_type: ScoreKeyType,
    gateway_scoring_type: GatewayScoringType,
) -> (res: Option<u64>)
    requires
        !is_global_key(score_key_type) && gateway_scoring_type == GatewayScoringType::PENALISE
            ==> (previous_transaction_count matches Some(c) ==> c < u64::MAX),
    ensures
        match (res, next_transaction_count(previous_transaction_count, score_key_type, gateway_scoring_type)) {
            (Some(r), Some(n)) => r == n,
            (None, None) => true,
            _ => false,
        },
{
    if isGlobalKey(score_key_type) {
        None
    } else {
        match previous_transaction_count {
            None => Some(1),
            Some(transaction_count) => {
                if gateway_scoring_type == GatewayScoringType::PENALISE {
                    Some(transaction_count + 1)
                } else {
                    Some(transaction_count)
                }
            },
        }
    }
}

/// A cached score is renewed when it has lived longer than the key's time to live
/// less one second.
pub open spec fn persisted_past_ttl(now: int, cached_timestamp: int, hard_key_ttl: int) -> bool {
    now - cached_timestamp > hard_key_ttl - 1000
}

/// Whether a cached score, written at `cached_timestamp`, must be started afresh at `now`
/// (all times in milliseconds).
pub fn scorePersistedPastTtl(now: i64, cached_timestamp: i64, hard_key_ttl: i64) -> (res: bool)
    ensures
        res == persisted_past_ttl(now as int, cached_timestamp as int, hard_key_ttl as int),
{
    (now as i128) - (cached_timestamp as i128) > (hard_key_ttl as i128) - 1000
}

/// The time to live left to a score written at `timestamp`: the key's time to live less
/// the time elapsed (none when the timestamp lies ahead), or the whole time to live when
/// less than a second would be left.
pub open spec fn safe_remaining_ttl(hard_key_ttl: int, now: int, timestamp: int) -> int {
    let elapsed = if now - timestamp > 0 { now - timestamp } else { 0 };
    let remaining = hard_key_ttl - elapsed;
    if remaining < 1000 { hard_key_ttl } else { remaining }
}

pub fn safeRemainingTtl(hard_key_ttl: i64, now: i64, timestamp: i64) -> (res: i64)
    ensures
        res == safe_remaining_ttl(hard_key_ttl as int, now as int, timestamp as int),
{
    let diff: i128 = (now as i128) - (timestamp as i128);
    let elapsed: i128 = if diff > 0 { diff } else { 0 };
    let remaining: i128 = (hard_key_ttl as i128) - elapsed;
    if remaining < 1000 {
        hard_key_ttl
    } else {
        remaining as i64
    }
}

/// What becomes of the per-merchant details of a cached score when a transaction of
/// `merchant_id` updates it.
#[derive(Debug, Clone, Copy, PartialEq, Eq, Structural)]
pub enum MerchantDetailsUpdate {
    /// The key is not global and keeps no merchant details.
    NotKept,
    /// No details yet: they start with a fresh entry for the merchant.
    StartWithMerchant,
    /// The merchant has no entry and the array is full: it stays as it is.
    KeepFull,
    /// The merchant has no entry: a fresh one is appended.
    AppendMerchant,
    /// The merchant's entries are updated for the transaction.
    UpdateMerchant,
}

pub open spec fn merchant_details_update(
    score_key_type: ScoreKeyType,
    merchant_ids: Option<Seq<Seq<char>>>,
    merchant_id: Seq<char>,
    arr_max_length: int,
) -> MerchantDetailsUpdate {
    if !is_global_key(score_key_type) {
        MerchantDetailsUpdate::NotKept
    } else {
        match merchant_ids {
            None => MerchantDetailsUpdate::StartWithMerchant,
            Some(ids) => if ids.contains(merchant_id) {
                MerchantDetailsUpdate::UpdateMerchant
            } else if ids.len() >= arr_max_length {
                MerchantDetailsUpdate::KeepFull
            } else {
                MerchantDetailsUpdate::AppendMerchant
            },
        }
    }
}

/// Decides how [`MerchantDetailsUpdate`] applies, given the merchant ids of the cached
/// details (in their order) and the length limit of the array.
pub fn merchantDetailsUpdate(
    score_key_type: ScoreKeyType,
    merchant_ids: Option<&Vec<String>>,
    merchant_id: &String,
    arr_max_length: i32,
) -> (res: MerchantDetailsUpdate)
    ensures
        match merchant_ids {
            Some(v) => res == merchant_details_update(score_key_type, Some(views(v@)), merchant_id@, arr_max_length as int),
            None => res == merchant_details_update(score_key_type, None, merchant_id@, arr_max_length as int),
        },
{
    if !isGlobalKey(score_key_type) {
        return MerchantDetailsUpdate::NotKept;
    }
    match merchant_ids {
        None => MerchantDetailsUpdate::StartWithMerchant,
        Some(ids) => {
            if contains_str(ids, merchant_id) {
                MerchantDetailsUpdate::UpdateMerchant
            } else if ids.len() as i128 >= arr_max_length as i128 {
                MerchantDetailsUpdate::KeepFull
            } else {
                MerchantDetailsUpdate::AppendMerchant
            }
        },
    }
}


/// The two caches that hold gateway scores, each read through its primary instance
/// with a second instance behind it.
#[derive(Debug, Clone, Copy, PartialEq, Eq, Structural)]
pub enum CacheName {
    KvRedis,
    EcRedis,
}

impl CacheName {
    /// The identifiers of the cache's primary and second instance.
    pub fn identifiers(&self) -> (res: (&'static str, &'static str))
        ensures
            match self {
                CacheName::KvRedis => res.0@ == "KVRedis"@ && res.1@ == "KVRedis2"@,
                CacheName::EcRedis => res.0@ == "ECRRedis"@ && res.1@ == "ECRRedis2"@,
            },
    {
        match self {
            CacheName::KvRedis => ("KVRedis", "KVRedis2"),
            CacheName::EcRedis => ("ECRRedis", "ECRRedis2"),
        }
    }
}

/// The cache read first: the KV cache when it is enforced, the EC cache otherwise.
pub open spec fn primary_cache(enforce_kv_redis: bool) -> CacheName {
    if enforce_kv_redis { CacheName::KvRedis } else { CacheName::EcRedis }
}

/// The other cache.
pub open spec fn fallback_cache(enforce_kv_redis: bool) -> CacheName {
    if enforce_kv_redis { CacheName::EcRedis } else { CacheName::KvRedis }
}

/// Reads a value from the primary cache and, when it holds none and the fallback is
/// not disabled, from the other cache. `read` looks a cache up; what it returns is
/// whatever the cache holds at that moment.
pub fn readFromCacheWithFallback<T, F: Fn(CacheName) -> Option<T>>(
    enforce_kv_redis: bool,
    disable_fallback: bool,
    read: F,
) -> (res: Option<T>)
    requires
        forall|c: CacheName| read.requires((c,)),
    ensures
        (res is Some && read.ensures((primary_cache(enforce_kv_redis),), res))
            || (read.ensures((primary_cache(enforce_kv_redis),), None::<T>) && if disable_fallback {
                res is None
            } else {
                read.ensures((fallback_cache(enforce_kv_redis),), res)
            }),
{
    let (primary, fallback) = if enforce_kv_redis {
        (CacheName::KvRedis, CacheName::EcRedis)
    } else {
        (CacheName::EcRedis, CacheName::KvRedis)
    };
    let first = read(primary);
    match first {
        Some(v) => Some(v),
        None => {
            if disable_fallback {
                None
            } else {
                read(fallback)
            }
        },
    }
}

/// Whether a key of this kind carries the gateway account's reference id: merchant
/// elimination keys when the merchant asks for it for elimination, success-rate keys
/// when it asks for it for routing, and no other kind.
pub open spec fn key_uses_reference_id(t: ScoreKeyType, for_elimination: bool, for_sr_routing: bool) -> bool {
    if t == ScoreKeyType::ELIMINATION_MERCHANT_KEY {
        for_elimination
    } else if t == ScoreKeyType::SR_V2_KEY || t == ScoreKeyType::SR_V3_KEY {
        for_sr_routing
    } else {
        false
    }
}

/// Whether a score key of this kind carries the gateway reference id: an elimination
/// merchant key when reference ids count for elimination, a success-rate key (v2 or
/// v3) when they count for success-rate routing, no other kind.
pub fn isGriEnabledForKey(score_key_type: ScoreKeyType, for_elimination: bool, for_sr_routing: bool) -> (res: bool)
    ensures
        res == key_uses_reference_id(score_key_type, for_elimination, for_sr_routing),
{
    if score_key_type == ScoreKeyType::ELIMINATION_MERCHANT_KEY {
        for_elimination
    } else if score_key_type == ScoreKeyType::SR_V2_KEY || score_key_type == ScoreKeyType::SR_V3_KEY {
        for_sr_routing
    } else {
        false
    }
}

/// The kinds of score key that an outcome is recorded under, in this order.
pub open spec fn unified_key_types() -> Seq<ScoreKeyType> {
    seq![
        ScoreKeyType::ELIMINATION_GLOBAL_KEY,
        ScoreKeyType::ELIMINATION_MERCHANT_KEY,
        ScoreKeyType::OUTAGE_GLOBAL_KEY,
        ScoreKeyType::OUTAGE_MERCHANT_KEY,
    ]
}

/// The score keys of a transaction: for each kind in [`unified_key_types`] order, the
/// producer key when scoring of that kind is enabled (`enabled` lists the four flags in
/// the same order), else none. `producer_key` computes the key of a kind.
pub fn getAllUnifiedKeys<F: Fn(ScoreKeyType) -> Option<String>>(
    enabled: [bool; 4],
    producer_key: F,
) -> (res: Vec<(ScoreKeyType, Option<String>)>)
    requires
        forall|t: ScoreKeyType| producer_key.requires((t,)),
    ensures
        res@.len() == 4,
        forall|i: int| 0 <= i < 4 ==> (#[trigger] res@[i]).0 == unified_key_types()[i],
        forall|i: int| 0 <= i < 4 ==> (if enabled@[i] {
            producer_key.ensures((unified_key_types()[i],), res@[i].1)
        } else {
            res@[i].1 is None
        }),
{
    let kinds: [ScoreKeyType; 4] = [
        ScoreKeyType::ELIMINATION_GLOBAL_KEY,
        ScoreKeyType::ELIMINATION_MERCHANT_KEY,
        ScoreKeyType::OUTAGE_GLOBAL_KEY,
        ScoreKeyType::OUTAGE_MERCHANT_KEY,
    ];
    assert(kinds@ =~= unified_key_types());
    let mut out: Vec<(ScoreKeyType, Option<String>)> = Vec::new();
    let mut i: usize = 0;
    while i < 4
        invariant
            i <= 4,
            kinds@ == unified_key_types(),
            forall|t: ScoreKeyType| producer_key.requires((t,)),
            out@.len() == i,
            forall|j: int| 0 <= j < i ==> (#[trigger] out@[j]).0 == unified_key_types()[j],
            forall|j: int| 0 <= j < i ==> (if enabled@[j] {
                producer_key.ensures((unified_key_types()[j],), out@[j].1)
            } else {
                out@[j].1 is None
            }),
        decreases 4 - i,
    {
        let t = kinds[i];
        if enabled[i] {
            let k = producer_key(t);
            out.push((t, k));
        } else {
            out.push((t, None));
        }
        i = i + 1;
    }
    out
}

/// How a key's score moves for one outcome.
#[derive(Debug, Clone, Copy, PartialEq, Eq, Structural)]
pub enum KeyScoreUpdate {
    /// The score stays.
    Unchanged,
    /// The score is penalised, by the elimination-v2 factor or by the configured factor.
    Penalty { elimination_v2: bool },
    /// The score is rewarded, by the elimination-v2 factor or by the configured factor.
    Reward { elimination_v2: bool },
}

/// A penalty or a reward moves the score; the v3-only penalty does not. The
/// elimination-v2 factor is used when the merchant enables elimination v2 and a factor
/// could be computed for the transaction.
pub open spec fn key_score_update(t: GatewayScoringType, elimination_v2_enabled: bool, v2_factor_found: bool) -> KeyScoreUpdate {
    match t {
        GatewayScoringType::PENALISE => KeyScoreUpdate::Penalty { elimination_v2: elimination_v2_enabled && v2_factor_found },
        GatewayScoringType::REWARD => KeyScoreUpdate::Reward { elimination_v2: elimination_v2_enabled && v2_factor_found },
        GatewayScoringType::PENALISE_SRV3 => KeyScoreUpdate::Unchanged,
    }
}

/// How a score key moves for a transaction's outcome: a penalty or a reward (with the
/// v2 elimination factor when it is enabled and found), or nothing for a v3 penalty.
pub fn keyScoreUpdate(t: GatewayScoringType, elimination_v2_enabled: bool, v2_factor_found: bool) -> (res: KeyScoreUpdate)
    ensures
        res == key_score_update(t, elimination_v2_enabled, v2_factor_found),
{
    match t {
        GatewayScoringType::PENALISE => KeyScoreUpdate::Penalty { elimination_v2: elimination_v2_enabled && v2_factor_found },
        GatewayScoringType::REWARD => KeyScoreUpdate::Reward { elimination_v2: elimination_v2_enabled && v2_factor_found },
        GatewayScoringType::PENALISE_SRV3 => KeyScoreUpdate::Unchanged,
    }
}

/// The position of the first detail entry of `merchant_id` in a global score's
/// merchant details (given by their merchant ids), if it has one.
pub fn findMerchantIndex(merchant_ids: &Vec<String>, merchant_id: &String) -> (res: Option<usize>)
    ensures
        match res {
            Some(i) => i < merchant_ids@.len() && merchant_ids@[i as int]@ == merchant_id@
                && forall|j: int| 0 <= j < i ==> (#[trigger] merchant_ids@[j])@ != merchant_id@,
            None => !views(merchant_ids@).contains(merchant_id@),
        },
{
    let mut i: usize = 0;
    while i < merchant_ids.len()
        invariant
            i <= merchant_ids.len(),
            forall|j: int| 0 <= j < i ==> (#[trigger] merchant_ids@[j])@ != merchant_id@,
        decreases merchant_ids.len() - i,
    {
        if crate::text::str_eq(merchant_ids[i].as_str(), merchant_id.as_str()) {
            return Some(i);
        }
        i = i + 1;
    }
    proof {
        if views(merchant_ids@).contains(merchant_id@) {
            let k = choose|k: int| 0 <= k < views(merchant_ids@).len() && views(merchant_ids@)[k] == merchant_id@;
            assert(merchant_ids@[k]@ == merchant_id@);
        }
    }
    None
}

/// The merchant's transaction count in a global score's details after an outcome:
/// one more after a penalty, unchanged otherwise.
pub fn merchantTransactionCount(count: i32, t: GatewayScoringType) -> (res: i32)
    requires
        t == GatewayScoringType::PENALISE ==> count < i32::MAX,
    ensures
        res == if t == GatewayScoringType::PENALISE { count + 1 } else { count as int },
{
    if t == GatewayScoringType::PENALISE {
        count + 1
    } else {
        count
    }
}

} // verus!
