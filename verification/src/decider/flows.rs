//! Decisions of the decider flow that follow the eligibility filters.
use vstd::prelude::*;
use crate::decider::gw_filter::{views, contains_str};
use crate::decider::types::DebugFilterEntry;
use crate::text::{opt_view, str_eq};
use crate::storage::types::MerchantGatewayAccount;

verus! {

/// An enforced gateway list counts only when it names at least one gateway.
pub fn handleEnforcedGateway(gateway_list: Option<Vec<String>>) -> (res: Option<Vec<String>>)
    ensures
        match gateway_list {
            None => res is None,
            Some(l) => if l@.len() == 0 { res is None } else { res == Some(l) },
        },
{
    match gateway_list {
        None => None,
        Some(list) => {
            if list.len() == 0 {
                None
            } else {
                Some(list)
            }
        },
    }
}

/// The priority list with the merchant's preferred gateway, if any, moved to the front.
pub open spec fn with_preferred_first(priority: Seq<Seq<char>>, preferred: Option<Seq<char>>) -> Seq<Seq<char>> {
    match preferred {
        None => priority,
        Some(p) => seq![p] + priority.filter(|g: Seq<char>| g != p),
    }
}

/// Puts the preferred gateway at the head of the priority list, dropping its other places.
pub fn addPreferredGatewaysToPriorityList(gwPriority: &Vec<String>, preferredGatewayM: Option<String>) -> (res: Vec<String>)
    ensures
        views(res@) == with_preferred_first(
            views(gwPriority@),
            match preferredGatewayM { Some(p) => Some(p@), None => None::<Seq<char>> },
        ),
{
    match preferredGatewayM {
        None => {
            let mut out: Vec<String> = Vec::new();
            let mut i: usize = 0;
            while i < gwPriority.len()
                invariant
                    i <= gwPriority.len(),
                    views(out@) == views(gwPriority@).take(i as int),
                decreases gwPriority.len() - i,
            {
                let g = gwPriority[i].clone();
                let ghost prev = out@;
                out.push(g);
                assert(views(out@) =~= views(prev).push(g@));
                assert(views(gwPriority@).take(i + 1) =~= views(gwPriority@).take(i as int).push(g@));
                i = i + 1;
            }
            assert(views(gwPriority@).take(gwPriority.len() as int) =~= views(gwPriority@));
            out
        },
        Some(pgw) => {
            let ghost p = pgw@;
            let ghost pred = |g: Seq<char>| g != p;
            let mut out: Vec<String> = Vec::new();
            out.push(pgw);
            let mut i: usize = 0;
            assert(views(gwPriority@).take(0) =~= Seq::<Seq<char>>::empty());
            assert(views(out@) =~= seq![p] + views(gwPriority@).take(0).filter(pred)) by {
                reveal(Seq::filter);
            }
            while i < gwPriority.len()
                invariant
                    i <= gwPriority.len(),
                    out@.len() >= 1,
                    views(out@)[0] == p,
                    pred == (|g: Seq<char>| g != p),
                    views(out@) == seq![p] + views(gwPriority@).take(i as int).filter(pred),
                decreases gwPriority.len() - i,
            {
                let ghost prev = out@;
                let ghost g = views(gwPriority@)[i as int];
                assert(g == gwPriority@[i as int]@);
                assert(views(out@)[0] == out@[0]@);
                assert(views(gwPriority@).take(i + 1) =~= views(gwPriority@).take(i as int).push(g));
                proof { views(gwPriority@).take(i as int).lemma_filter_push(g, pred); }
                if !str_eq(gwPriority[i].as_str(), out[0].as_str()) {
                    let c = gwPriority[i].clone();
                    out.push(c);
                    assert(views(out@) =~= views(prev).push(g));
                } else {
                    assert(!pred(g));
                }
                i = i + 1;
            }
            assert(views(gwPriority@).take(gwPriority.len() as int) =~= views(gwPriority@));
            out
        },
    }
}

/// The preferred gateway heads the list and occurs nowhere else in it; every other
/// gateway of the priority list keeps its place relative to the others.
pub proof fn lemma_preferred_first(priority: Seq<Seq<char>>, p: Seq<char>)
    ensures
        with_preferred_first(priority, Some(p))[0] == p,
        forall|i: int| 1 <= i < with_preferred_first(priority, Some(p)).len()
            ==> #[trigger] with_preferred_first(priority, Some(p))[i] != p,
        with_preferred_first(priority, Some(p)).drop_first() == priority.filter(|g: Seq<char>| g != p),
{
    let pred = |g: Seq<char>| g != p;
    let r = with_preferred_first(priority, Some(p));
    assert(r.drop_first() =~= priority.filter(pred));
    assert forall|i: int| 1 <= i < r.len() implies #[trigger] r[i] != p by {
        assert(r[i] == priority.filter(pred)[i - 1]);
        priority.lemma_filter_pred(pred, i - 1);
    }
}

/// The functional gateways that the enforced priority list admits, in functional order.
pub fn enforcedGateways(fGws: &Vec<String>, priorityGws: &Vec<String>) -> (res: Vec<String>)
    ensures
        views(res@) == views(fGws@).filter(|g: Seq<char>| views(priorityGws@).contains(g)),
{
    let ghost pred = |g: Seq<char>| views(priorityGws@).contains(g);
    let mut out: Vec<String> = Vec::new();
    let mut i: usize = 0;
    assert(views(fGws@).take(0).filter(pred) =~= Seq::<Seq<char>>::empty()) by {
        reveal(Seq::filter);
    }
    while i < fGws.len()
        invariant
            i <= fGws.len(),
            views(out@) == views(fGws@).take(i as int).filter(pred),
            pred == (|g: Seq<char>| views(priorityGws@).contains(g)),
        decreases fGws.len() - i,
    {
        let ghost prev = out@;
        let ghost g = views(fGws@)[i as int];
        assert(g == fGws@[i as int]@);
        assert(views(fGws@).take(i + 1) =~= views(fGws@).take(i as int).push(g));
        proof { views(fGws@).take(i as int).lemma_filter_push(g, pred); }
        if contains_str(priorityGws, &fGws[i]) {
            let c = fGws[i].clone();
            out.push(c);
            assert(views(out@) =~= views(prev).push(g));
        }
        i = i + 1;
    }
    assert(views(fGws@).take(fGws.len() as int) =~= views(fGws@));
    out
}

/// How the merchant's preferred gateway settles the decision.
#[derive(Debug, Clone, Copy, PartialEq, Eq, Structural)]
pub enum PreferenceOutcome {
    /// The preferred gateway is functional and dynamic switching is off: it is decided.
    UsePreferred,
    /// The preferred gateway must be used but is not functional: no gateway is decided.
    PreferredNotFunctional,
    /// Priority logic and scoring decide.
    ByPriorityLogic,
}

pub open spec fn preference_outcome(
    preferred_gateway: Option<Seq<char>>,
    dynamic_switching_enabled: bool,
    functional_gateways: Seq<Seq<char>>,
) -> PreferenceOutcome {
    match preferred_gateway {
        Some(p) => if !dynamic_switching_enabled {
            if functional_gateways.contains(p) {
                PreferenceOutcome::UsePreferred
            } else {
                PreferenceOutcome::PreferredNotFunctional
            }
        } else {
            PreferenceOutcome::ByPriorityLogic
        },
        None => PreferenceOutcome::ByPriorityLogic,
    }
}

/// Whether the merchant's preferred gateway decides the transaction on its own.
pub fn preferenceOutcome(
    preferred_gateway: &Option<String>,
    dynamic_switching_enabled: bool,
    functional_gateways: &Vec<String>,
) -> (res: PreferenceOutcome)
    ensures
        res == preference_outcome(
            match preferred_gateway { Some(p) => Some(p@), None => None::<Seq<char>> },
            dynamic_switching_enabled,
            views(functional_gateways@),
        ),
{
    match preferred_gateway {
        Some(pgw) => {
            if !dynamic_switching_enabled {
                if contains_str(functional_gateways, pgw) {
                    PreferenceOutcome::UsePreferred
                } else {
                    PreferenceOutcome::PreferredNotFunctional
                }
            } else {
                PreferenceOutcome::ByPriorityLogic
            }
        },
        None => PreferenceOutcome::ByPriorityLogic,
    }
}

/// The id of the first account of `gateway`, if it has one.
pub open spec fn first_account_id(mgas: Seq<MerchantGatewayAccount>, gateway: Seq<char>) -> Option<i64>
    decreases mgas.len(),
{
    if mgas.len() == 0 {
        None
    } else if mgas[0].gateway@ == gateway {
        Some(mgas[0].id)
    } else {
        first_account_id(mgas.drop_first(), gateway)
    }
}

fn find_account_id(allMgas: &Vec<MerchantGatewayAccount>, gateway: &String) -> (res: Option<i64>)
    ensures
        res == first_account_id(allMgas@, gateway@),
{
    let mut i: usize = 0;
    assert(allMgas@.skip(0) =~= allMgas@);
    while i < allMgas.len()
        invariant
            i <= allMgas.len(),
            first_account_id(allMgas@, gateway@) == first_account_id(allMgas@.skip(i as int), gateway@),
        decreases allMgas.len() - i,
    {
        assert(allMgas@.skip(i as int)[0] == allMgas@[i as int]);
        if str_eq(allMgas[i].gateway.as_str(), gateway.as_str()) {
            return Some(allMgas[i].id);
        }
        assert(allMgas@.skip(i as int).drop_first() =~= allMgas@.skip(i + 1));
        i = i + 1;
    }
    assert(allMgas@.skip(i as int).len() == 0);
    None
}

/// For each gateway, the id of the first of the merchant's accounts on it.
pub fn getGatewayToMGAIdMapF(allMgas: &Vec<MerchantGatewayAccount>, gateways: &Vec<String>) -> (res: Vec<(String, Option<i64>)>)
    ensures
        res@.len() == gateways@.len(),
        forall|i: int| 0 <= i < gateways@.len() ==> (#[trigger] res@[i]).0@ == gateways@[i]@
            && res@[i].1 == first_account_id(allMgas@, gateways@[i]@),
{
    let mut out: Vec<(String, Option<i64>)> = Vec::new();
    let mut i: usize = 0;
    while i < gateways.len()
        invariant
            i <= gateways.len(),
            out@.len() == i,
            forall|j: int| 0 <= j < i ==> (#[trigger] out@[j]).0@ == gateways@[j]@
                && out@[j].1 == first_account_id(allMgas@, gateways@[j]@),
        decreases gateways.len() - i,
    {
        let id = find_account_id(allMgas, &gateways[i]);
        let g = gateways[i].clone();
        out.push((g, id));
        i = i + 1;
    }
    out
}

/// The filter names and the gateways each one left, in the order they ran.
pub fn filterList(debugFilterList: &Vec<DebugFilterEntry>) -> (res: Vec<(String, Vec<String>)>)
    ensures
        res@.len() == debugFilterList@.len(),
        forall|i: int| 0 <= i < res@.len() ==> (#[trigger] res@[i]).0@ == debugFilterList@[i].filterName@
            && views(res@[i].1@) == views(debugFilterList@[i].gateways@),
{
    let mut out: Vec<(String, Vec<String>)> = Vec::new();
    let mut i: usize = 0;
    while i < debugFilterList.len()
        invariant
            i <= debugFilterList.len(),
            out@.len() == i,
            forall|j: int| 0 <= j < i ==> (#[trigger] out@[j]).0@ == debugFilterList@[j].filterName@
                && views(out@[j].1@) == views(debugFilterList@[j].gateways@),
        decreases debugFilterList.len() - i,
    {
        let name = debugFilterList[i].filterName.clone();
        let gws = copy_strings(&debugFilterList[i].gateways);
        out.push((name, gws));
        i = i + 1;
    }
    out
}

/// A copy of a list of strings.
pub fn copy_strings(v: &Vec<String>) -> (res: Vec<String>)
    ensures
        views(res@) == views(v@),
{
    let mut out: Vec<String> = Vec::new();
    let mut i: usize = 0;
    while i < v.len()
        invariant
            i <= v.len(),
            views(out@) == views(v@).take(i as int),
        decreases v.len() - i,
    {
        let g = v[i].clone();
        let ghost prev = out@;
        out.push(g);
        assert(views(out@) =~= views(prev).push(g@));
        assert(views(v@).take(i + 1) =~= views(v@).take(i as int).push(g@));
        i = i + 1;
    }
    assert(views(v@).take(v.len() as int) =~= views(v@));
    out
}

/// The text with every ` UTC` replaced by `Z`, scanning from the left as
/// `str::replace` does.
pub open spec fn replace_utc(s: Seq<char>) -> Seq<char>
    decreases s.len(),
{
    if s.len() == 0 {
        Seq::empty()
    } else if s.len() >= 4 && s.subrange(0, 4) == seq![' ', 'U', 'T', 'C'] {
        seq!['Z'] + replace_utc(s.skip(4))
    } else {
        seq![s[0]] + replace_utc(s.drop_first())
    }
}

/// The text with every space replaced by `T`.
pub open spec fn spaces_to_t(s: Seq<char>) -> Seq<char> {
    s.map_values(|c: char| if c == ' ' { 'T' } else { c })
}

/// A transaction's creation time as the decider records it: every space becomes `T`,
/// then every ` UTC` becomes `Z` (which, with the spaces gone, leaves the text as it is).
pub open spec fn txn_creation_time(date_created: Seq<char>) -> Seq<char> {
    replace_utc(spaces_to_t(date_created))
}

/// With no space in the text there is no ` UTC` to replace.
pub proof fn lemma_replace_utc_without_space(s: Seq<char>)
    requires
        forall|k: int| 0 <= k < s.len() ==> #[trigger] s[k] != ' ',
    ensures
        replace_utc(s) == s,
    decreases s.len(),
{
    if s.len() > 0 {
        assert(s.len() >= 4 ==> s.subrange(0, 4)[0] == s[0]);
        lemma_replace_utc_without_space(s.drop_first());
        assert(s =~= seq![s[0]] + s.drop_first());
    }
}

/// The creation time the decider state starts with.
pub fn txnCreationTime(date_created: &str) -> (res: String)
    ensures
        res@ == txn_creation_time(date_created@),
{
    let n = date_created.unicode_len();
    let mut out = String::new();
    let mut j: usize = 0;
    while j < n
        invariant
            n == date_created@.len(),
            j <= n,
            out@ == spaces_to_t(date_created@).take(j as int),
        decreases n - j,
    {
        let c = date_created.get_char(j);
        let d = if c == ' ' { 'T' } else { c };
        crate::text::string_push(&mut out, d);
        assert(spaces_to_t(date_created@).take(j + 1) =~= spaces_to_t(date_created@).take(j as int).push(d));
        j = j + 1;
    }
    assert(spaces_to_t(date_created@).take(n as int) =~= spaces_to_t(date_created@));
    proof {
        lemma_replace_utc_without_space(out@);
    }
    out
}

/// The creation time holds no space.
pub proof fn lemma_txn_creation_time_has_no_space(date_created: Seq<char>)
    ensures
        forall|k: int| 0 <= k < txn_creation_time(date_created).len()
            ==> #[trigger] txn_creation_time(date_created)[k] != ' ',
{
    lemma_replace_utc_without_space(spaces_to_t(date_created));
}

/// Enforcement fell through: no functional gateway is in the enforced priority list and
/// the priority logic was computed here (not given with the request), so its fallback
/// logic is run.
pub fn needsFallbackAfterEnforcement(enforced: &Vec<String>, priority_logic_output_given: bool) -> (res: bool)
    ensures
        res == (enforced@.len() == 0 && !priority_logic_output_given),
{
    enforced.len() == 0 && !priority_logic_output_given
}

/// The functional gateways once the fallback priority logic has run: those of its list
/// (the preferred gateway first) when it enforces, else all of them; and whether the
/// fallback must run once more because enforcement again left none.
pub fn enforcementAfterFallback(
    fGws: &Vec<String>,
    fallback_priority: &Vec<String>,
    preferred_gateway: Option<String>,
    is_enforcement: bool,
) -> (res: (Vec<String>, bool))
    ensures
        is_enforcement ==> views(res.0@) == views(fGws@).filter(|g: Seq<char>|
            with_preferred_first(views(fallback_priority@), opt_view(preferred_gateway)).contains(g)),
        !is_enforcement ==> views(res.0@) == views(fGws@),
        res.1 == (is_enforcement && res.0@.len() == 0),
{
    if is_enforcement {
        let ghost pv = opt_view(preferred_gateway);
        let priority = addPreferredGatewaysToPriorityList(fallback_priority, preferred_gateway);
        let gws = enforcedGateways(fGws, &priority);
        assert((|g: Seq<char>| views(priority@).contains(g))
            =~= (|g: Seq<char>| with_preferred_first(views(fallback_priority@), pv).contains(g)));
        let again = gws.len() == 0;
        (gws, again)
    } else {
        (copy_strings(fGws), false)
    }
}

/// What the decider does once the merchant's priority logic is known.
pub struct AfterPriorityLogic {
    /// The priority list, with the preferred gateway first.
    pub priority: Vec<String>,
    /// The gateways that go on to scoring: those of the priority list when it is
    /// enforced, else every functional gateway.
    pub gateways: Vec<String>,
    /// Enforcement left no gateway and the fallback logic must run.
    pub run_fallback: bool,
}

/// What the decider does once the priority logic has given its list: it puts the preferred
/// gateway first, narrows the functional gateways to the priority list when the logic
/// enforces it, and asks for the fallback logic when that leaves none and the logic was
/// computed here rather than given with the request.
pub fn afterPriorityLogic(
    functional: &Vec<String>,
    priority_gws: &Vec<String>,
    preferred_gateway: Option<String>,
    is_enforcement: bool,
    priority_logic_output_given: bool,
) -> (res: AfterPriorityLogic)
    ensures
        views(res.priority@) == with_preferred_first(views(priority_gws@), opt_view(preferred_gateway)),
        is_enforcement ==> views(res.gateways@)
            == views(functional@).filter(|g: Seq<char>| views(res.priority@).contains(g)),
        !is_enforcement ==> views(res.gateways@) == views(functional@),
        res.run_fallback == (is_enforcement && res.gateways@.len() == 0 && !priority_logic_output_given),
{
    let priority = addPreferredGatewaysToPriorityList(priority_gws, preferred_gateway);
    if is_enforcement {
        let gateways = enforcedGateways(functional, &priority);
        let run_fallback = needsFallbackAfterEnforcement(&gateways, priority_logic_output_given);
        AfterPriorityLogic { priority, gateways, run_fallback }
    } else {
        AfterPriorityLogic { priority, gateways: copy_strings(functional), run_fallback: false }
    }
}

} // verus!
