//! Settings of the decider read from the environment. The caller reads the
//! variable (`None` when it is unset or not valid Unicode) and hands its text here.
use vstd::prelude::*;
use crate::text::{parse_i32, spec_parse_i32, split_on, split_on_char};

verus! {

/// The endpoint used when `PROD_EULER_INTERNAL_ENDPOINT` is unset.
pub open spec fn default_euler_prod_internal_endpoint() -> Seq<char> {
    "http://euler.prod.internal.mum.juspay.net"@
}

/// The shard count used when `COUNT_STREAM_SHARDS_ROUTING_METRICS` is unset.
pub const DEFAULT_ROUTING_METRICS_STREAM_COUNT: i32 = 1024;

/// `PROD_EULER_INTERNAL_ENDPOINT`, or the production endpoint when it is unset.
pub fn euler_prod_internal_endpoint(prod_euler_internal_endpoint: Option<String>) -> (res: String)
    ensures
        match prod_euler_internal_endpoint {
            Some(v) => res@ == v@,
            None => res@ == default_euler_prod_internal_endpoint(),
        },
{
    match prod_euler_internal_endpoint {
        Some(v) => v,
        None => String::from_str("http://euler.prod.internal.mum.juspay.net"),
    }
}

/// `EULER_PROD_INTERNAL_ENDPOINT`, falling back to [`euler_prod_internal_endpoint`].
pub fn euler_endpoint(
    euler_prod_internal_endpoint_var: Option<String>,
    prod_euler_internal_endpoint: Option<String>,
) -> (res: String)
    ensures
        match euler_prod_internal_endpoint_var {
            Some(v) => res@ == v@,
            None => match prod_euler_internal_endpoint {
                Some(w) => res@ == w@,
                None => res@ == default_euler_prod_internal_endpoint(),
            },
        },
{
    match euler_prod_internal_endpoint_var {
        Some(v) => v,
        None => euler_prod_internal_endpoint(prod_euler_internal_endpoint),
    }
}

/// `IS_PASSED_GATEWAY_PRIORITY_LIST`: its text when it is set, otherwise nothing.
pub fn is_passed_gpm(is_passed_gateway_priority_list: Option<String>) -> (res: Option<String>)
    ensures
        res == is_passed_gateway_priority_list,
{
    match is_passed_gateway_priority_list {
        Some(v) => Some(v),
        None => None,
    }
}

/// `COUNT_STREAM_SHARDS_ROUTING_METRICS` read as an `i32`, or 1024 when it is unset.
/// A set value that is no `i32` stops the service at startup, so it is excluded here.
pub fn number_of_streams_for_routing_metrics(count_stream_shards: Option<String>) -> (res: i32)
    requires
        count_stream_shards matches Some(v) ==> spec_parse_i32(v@) is Some,
    ensures
        match count_stream_shards {
            Some(v) => Some(res) == spec_parse_i32(v@),
            None => res == DEFAULT_ROUTING_METRICS_STREAM_COUNT,
        },
{
    match count_stream_shards {
        Some(v) => match parse_i32(v.as_str()) {
            Some(n) => n,
            None => DEFAULT_ROUTING_METRICS_STREAM_COUNT,
        },
        None => DEFAULT_ROUTING_METRICS_STREAM_COUNT,
    }
}

/// `MERC_DISABLED_FOR_SODEXO_DUPLICATE_CARD_CHECK`: the comma-separated merchant ids,
/// or none when it is unset.
pub fn merchant_disabled_for_sodexo_duplicate_check(merchant_ids: Option<String>) -> (res: Vec<String>)
    ensures
        match merchant_ids {
            Some(v) => res@.map_values(|p: String| p@) == split_on(v@, ','),
            None => res@.len() == 0,
        },
{
    match merchant_ids {
        Some(v) => split_on_char(v.as_str(), ','),
        None => Vec::new(),
    }
}

} // verus!
