//! What the priority logic is given: the gateway priority a merchant configures
//! without a script, and the card details a script reads.
use vstd::prelude::*;
use crate::decider::gw_filter::views;
use crate::feedback::utils::{is_white_space, char_is_whitespace};
use crate::text::{
    split_on, split_on_char, opt_view, uppercase, lowercase, str_to_uppercase, str_to_lowercase, is_infix_of,
    contains_str_pattern,
};

verus! {

/// The text without the white space at its start.
pub open spec fn trim_start(s: Seq<char>) -> Seq<char>
    decreases s.len(),
{
    if s.len() > 0 && is_white_space(s[0]) {
        trim_start(s.drop_first())
    } else {
        s
    }
}

/// The text without the white space at its end.
pub open spec fn trim_end(s: Seq<char>) -> Seq<char>
    decreases s.len(),
{
    if s.len() > 0 && is_white_space(s.last()) {
        trim_end(s.drop_last())
    } else {
        s
    }
}

/// The text without white space at either end, as `str::trim` gives it.
pub open spec fn trim_ws(s: Seq<char>) -> Seq<char> {
    trim_end(trim_start(s))
}

/// Removes the white space at both ends of `s`.
pub fn trim(s: &str) -> (res: String)
    ensures
        res@ == trim_ws(s@),
{
    let n = s.unicode_len();
    let mut a: usize = 0;
    assert(s@.subrange(0, n as int) =~= s@);
    while a < n && char_is_whitespace(s.get_char(a))
        invariant
            n == s@.len(),
            a <= n,
            trim_start(s@) == trim_start(s@.subrange(a as int, n as int)),
        decreases n - a,
    {
        assert(s@.subrange(a as int, n as int).drop_first() =~= s@.subrange(a + 1, n as int));
        a = a + 1;
    }
    proof {
        if a < n {
            assert(s@.subrange(a as int, n as int)[0] == s@[a as int]);
        } else {
            assert(s@.subrange(a as int, n as int).len() == 0);
        }
    }
    let mut b: usize = n;
    while b > a && char_is_whitespace(s.get_char(b - 1))
        invariant
            n == s@.len(),
            a <= b <= n,
            trim_start(s@) == s@.subrange(a as int, n as int),
            trim_end(s@.subrange(a as int, n as int)) == trim_end(s@.subrange(a as int, b as int)),
        decreases b - a,
    {
        assert(s@.subrange(a as int, b as int).drop_last() =~= s@.subrange(a as int, b - 1));
        assert(s@.subrange(a as int, b as int).last() == s@[b - 1]);
        b = b - 1;
    }
    proof {
        if b > a {
            assert(s@.subrange(a as int, b as int).last() == s@[b - 1]);
        } else {
            assert(s@.subrange(a as int, b as int).len() == 0);
        }
    }
    String::from_str(s.substring_char(a, b))
}

/// The gateways of a merchant's comma-separated priority text: each piece trimmed,
/// empty pieces dropped; none without a text.
pub open spec fn gateway_priority_list(t: Option<Seq<char>>) -> Seq<Seq<char>> {
    match t {
        None => Seq::empty(),
        Some(t) => split_on(t, ',').map_values(|p: Seq<char>| trim_ws(p)).filter(|p: Seq<char>| p.len() > 0),
    }
}

/// The gateway priority a merchant configured as text; an empty list means that the
/// default priority output is used.
pub fn merchantGatewayPriorityList(gateway_priority: &Option<String>) -> (res: Vec<String>)
    ensures
        views(res@) == gateway_priority_list(match gateway_priority { Some(t) => Some(t@), None => None::<Seq<char>> }),
{
    match gateway_priority {
        None => {
            let v: Vec<String> = Vec::new();
            assert(views(v@) =~= Seq::<Seq<char>>::empty());
            v
        },
        Some(t) => {
            let pieces = split_on_char(t.as_str(), ',');
            let ghost ts = split_on(t@, ',').map_values(|p: Seq<char>| trim_ws(p));
            let ghost pred = |p: Seq<char>| p.len() > 0;
            let mut out: Vec<String> = Vec::new();
            let mut i: usize = 0;
            assert(pieces@.map_values(|p: String| p@).len() == pieces@.len());
            assert(ts.take(0).filter(pred) =~= Seq::<Seq<char>>::empty()) by {
                reveal(Seq::filter);
            }
            assert(views(out@) =~= Seq::<Seq<char>>::empty());
            while i < pieces.len()
                invariant
                    i <= pieces.len(),
                    pieces@.map_values(|p: String| p@) == split_on(t@, ','),
                    ts == split_on(t@, ',').map_values(|p: Seq<char>| trim_ws(p)),
                    ts.len() == pieces@.len(),
                    pred == (|p: Seq<char>| p.len() > 0),
                    views(out@) == ts.take(i as int).filter(pred),
                decreases pieces.len() - i,
            {
                let piece = trim(pieces[i].as_str());
                assert(pieces@.map_values(|p: String| p@)[i as int] == pieces@[i as int]@);
                assert(ts[i as int] == piece@);
                assert(ts.take(i + 1) =~= ts.take(i as int).push(piece@));
                proof { ts.take(i as int).lemma_filter_push(piece@, pred); }
                if piece.unicode_len() > 0 {
                    let ghost prev = out@;
                    out.push(piece);
                    assert(views(out@) =~= views(prev).push(ts[i as int]));
                }
                i = i + 1;
            }
            assert(ts.take(pieces.len() as int) =~= ts);
            out
        },
    }
}

/// No gateway of a configured priority list is empty.
pub proof fn lemma_gateway_priority_list_nonempty(t: Option<Seq<char>>)
    ensures
        forall|i: int| 0 <= i < gateway_priority_list(t).len() ==> (#[trigger] gateway_priority_list(t)[i]).len() > 0,
{
    match t {
        None => {},
        Some(s) => {
            let ts = split_on(s, ',').map_values(|p: Seq<char>| trim_ws(p));
            let pred = |p: Seq<char>| p.len() > 0;
            assert forall|i: int| 0 <= i < ts.filter(pred).len() implies (#[trigger] ts.filter(pred)[i]).len() > 0 by {
                ts.lemma_filter_pred(pred, i);
            }
        },
    }
}

proof fn lemma_trim_start_result(s: Seq<char>)
    ensures
        trim_start(s).len() == 0 || !is_white_space(trim_start(s)[0]),
        trim_start(s).len() <= s.len(),
    decreases s.len(),
{
    if s.len() > 0 && is_white_space(s[0]) {
        lemma_trim_start_result(s.drop_first());
    }
}

proof fn lemma_trim_end_result(s: Seq<char>)
    ensures
        trim_end(s).len() == 0 || !is_white_space(trim_end(s).last()),
        trim_end(s).len() <= s.len(),
        trim_end(s) == s.subrange(0, trim_end(s).len() as int),
    decreases s.len(),
{
    if s.len() > 0 && is_white_space(s.last()) {
        lemma_trim_end_result(s.drop_last());
        assert(trim_end(s) == trim_end(s.drop_last()));
        assert(s.drop_last().subrange(0, trim_end(s).len() as int) =~= s.subrange(0, trim_end(s).len() as int));
    } else {
        assert(s.subrange(0, s.len() as int) =~= s);
    }
}

/// Trimming a trimmed text changes nothing.
pub proof fn lemma_trim_idempotent(s: Seq<char>)
    ensures
        trim_ws(trim_ws(s)) == trim_ws(s),
{
    let a = trim_start(s);
    let r = trim_end(a);
    lemma_trim_start_result(s);
    lemma_trim_end_result(a);
    if r.len() > 0 {
        assert(r[0] == a.subrange(0, r.len() as int)[0]);
        assert(trim_start(r) == r);
        assert(trim_end(r) == r);
    } else {
        assert(trim_start(r) == r);
    }
}

/// The card bin the priority logic sees: the first six characters of the card's isin.
pub fn cardBin(card_isin: &str) -> (res: String)
    ensures
        res@ == if card_isin@.len() <= 6 { card_isin@ } else { card_isin@.subrange(0, 6) },
{
    let n = card_isin.unicode_len();
    if n <= 6 {
        String::from_str(card_isin)
    } else {
        String::from_str(card_isin.substring_char(0, 6))
    }
}

/// Whether a card sub type names a business card: it mentions `business` or `corp`,
/// ignoring case.
pub open spec fn is_business_sub_type(upper_sub_type: Seq<char>) -> bool {
    is_infix_of("business"@, str_to_lowercase(upper_sub_type)) || is_infix_of("corp"@, str_to_lowercase(upper_sub_type))
}

/// The sub type category of a card with stored card details: the stored category in
/// uppercase; without one, `CORPORATE` or `RETAIL` by the sub type, none without a
/// sub type. A card without stored details has no category.
pub open spec fn card_sub_type_category(
    card_info_found: bool,
    category: Option<Seq<char>>,
    card_sub_type: Option<Seq<char>>,
) -> Option<Seq<char>> {
    if !card_info_found {
        None
    } else {
        match category {
            Some(c) => Some(str_to_uppercase(c)),
            None => match card_sub_type {
                Some(t) => if str_to_uppercase(t).len() > 0 {
                    if is_business_sub_type(str_to_uppercase(t)) { Some("CORPORATE"@) } else { Some("RETAIL"@) }
                } else {
                    None
                },
                None => None,
            },
        }
    }
}

pub fn cardSubTypeCategory(
    card_info_found: bool,
    category: &Option<String>,
    card_sub_type: &Option<String>,
) -> (res: Option<String>)
    ensures
        opt_view(res) == card_sub_type_category(card_info_found, opt_view(*category), opt_view(*card_sub_type)),
{
    if !card_info_found {
        return None;
    }
    match category {
        Some(c) => Some(uppercase(c.as_str())),
        None => match card_sub_type {
            Some(t) => {
                let up = uppercase(t.as_str());
                if up.as_str().unicode_len() > 0 {
                    let low = lowercase(up.as_str());
                    if contains_str_pattern(low.as_str(), "business") || contains_str_pattern(low.as_str(), "corp") {
                        Some(String::from_str("CORPORATE"))
                    } else {
                        Some(String::from_str("RETAIL"))
                    }
                } else {
                    None
                }
            },
            None => None,
        },
    }
}

/// Why the evaluation of a priority-logic script failed (`NO_ERROR` when it did not).
#[derive(Debug, Clone, Copy, PartialEq, Eq, Structural)]
pub enum PlFailureReason {
    NO_ERROR,
    PL_EVALUATION_FAILED,
    GATEWAY_NAME_PARSE_FAILURE,
    CONNECTION_FAILED,
    RESPONSE_PARSE_ERROR,
    RESPONSE_DECODE_FAILURE,
    RESPONSE_CONTENT_TYPE_NOT_SUPPORTED,
    NULL_AFTER_ENFORCE,
}

/// The ways a call to the script evaluator fails on the client side (a failure response
/// whose body is itself an evaluator error is passed on as it is).
#[derive(Debug, Clone, Copy, PartialEq, Eq, Structural)]
pub enum PlClientErrorKind {
    /// A failure response whose body does not read as an evaluator error.
    UnreadableFailureResponse,
    DecodeFailure,
    UnsupportedContentType,
    InvalidContentTypeHeader,
    ConnectionError,
}

pub open spec fn pl_client_error_outcome(kind: PlClientErrorKind) -> (PlFailureReason, Seq<char>) {
    match kind {
        PlClientErrorKind::UnreadableFailureResponse => (PlFailureReason::RESPONSE_PARSE_ERROR, "Failed to parse response"@),
        PlClientErrorKind::DecodeFailure => (PlFailureReason::RESPONSE_DECODE_FAILURE, "Response decoding failed."@),
        PlClientErrorKind::UnsupportedContentType => (
            PlFailureReason::RESPONSE_CONTENT_TYPE_NOT_SUPPORTED,
            "The response had an unsupported content type."@,
        ),
        PlClientErrorKind::InvalidContentTypeHeader => (
            PlFailureReason::RESPONSE_CONTENT_TYPE_NOT_SUPPORTED,
            "The response had an invalid content type header."@,
        ),
        PlClientErrorKind::ConnectionError => (PlFailureReason::CONNECTION_FAILED, "A connection error occurred."@),
    }
}

/// The failure reason and user message that a client-side failure of the priority
/// logic service is reported with; logging it is left to the caller.
pub fn plClientErrorOutcome(kind: PlClientErrorKind) -> (res: (PlFailureReason, &'static str))
    ensures
        (res.0, res.1@) == pl_client_error_outcome(kind),
{
    match kind {
        PlClientErrorKind::UnreadableFailureResponse => (PlFailureReason::RESPONSE_PARSE_ERROR, "Failed to parse response"),
        PlClientErrorKind::DecodeFailure => (PlFailureReason::RESPONSE_DECODE_FAILURE, "Response decoding failed."),
        PlClientErrorKind::UnsupportedContentType => (
            PlFailureReason::RESPONSE_CONTENT_TYPE_NOT_SUPPORTED,
            "The response had an unsupported content type.",
        ),
        PlClientErrorKind::InvalidContentTypeHeader => (
            PlFailureReason::RESPONSE_CONTENT_TYPE_NOT_SUPPORTED,
            "The response had an invalid content type header.",
        ),
        PlClientErrorKind::ConnectionError => (PlFailureReason::CONNECTION_FAILED, "A connection error occurred."),
    }
}

/// Only a failed connection is worth evaluating the script again.
pub fn isRetryableFailure(reason: PlFailureReason) -> (res: bool)
    ensures
        res == (reason == PlFailureReason::CONNECTION_FAILED),
{
    reason == PlFailureReason::CONNECTION_FAILED
}

/// Where the evaluation of a merchant's priority logic stands.
#[derive(Debug, Clone, Copy, PartialEq, Eq, Structural)]
pub enum PlStage {
    /// The script is evaluated for the first time.
    Primary,
    /// The script is evaluated once more after a failed connection.
    Retry,
    /// The merchant's fallback logic is run.
    Fallback,
    /// The gateway priority is decided.
    Decided,
}

/// What the evaluation reported.
#[derive(Debug, Clone, Copy, PartialEq, Eq, Structural)]
pub enum PlEvent {
    Evaluated,
    Failed(PlFailureReason),
}

/// What is done next.
#[derive(Debug, Clone, Copy, PartialEq, Eq, Structural)]
pub enum PlAction {
    /// Use the gateways the script gave, with its logic recorded as primary.
    UseResult,
    /// Evaluate the same script again.
    EvaluateAgain,
    /// Run the fallback logic with the failed evaluation recorded as primary.
    RunFallback,
    /// The fallback ran: use what it gave (or its failure) as the decided output.
    UseFallbackOutcome,
    /// The priority is already decided; nothing is left to do.
    Nothing,
}

/// The next stage and action of evaluating a merchant's priority logic: a successful
/// evaluation decides it; a first failure is retried only when the connection failed;
/// any other failure, and a failed retry, goes to the fallback logic, whose outcome is
/// final.
pub open spec fn pl_step(stage: PlStage, event: PlEvent) -> (PlStage, PlAction) {
    match stage {
        PlStage::Primary => match event {
            PlEvent::Evaluated => (PlStage::Decided, PlAction::UseResult),
            PlEvent::Failed(r) => if r == PlFailureReason::CONNECTION_FAILED {
                (PlStage::Retry, PlAction::EvaluateAgain)
            } else {
                (PlStage::Fallback, PlAction::RunFallback)
            },
        },
        PlStage::Retry => match event {
            PlEvent::Evaluated => (PlStage::Decided, PlAction::UseResult),
            PlEvent::Failed(_) => (PlStage::Fallback, PlAction::RunFallback),
        },
        PlStage::Fallback => (PlStage::Decided, PlAction::UseFallbackOutcome),
        PlStage::Decided => (PlStage::Decided, PlAction::Nothing),
    }
}

/// One step of evaluating the priority logic script and its fallback; the caller evaluates the
/// script or the fallback as the action says and hands back what it reported.
pub fn priorityLogicStep(stage: PlStage, event: PlEvent) -> (res: (PlStage, PlAction))
    ensures
        res == pl_step(stage, event),
{
    match stage {
        PlStage::Primary => match event {
            PlEvent::Evaluated => (PlStage::Decided, PlAction::UseResult),
            PlEvent::Failed(r) => if isRetryableFailure(r) {
                (PlStage::Retry, PlAction::EvaluateAgain)
            } else {
                (PlStage::Fallback, PlAction::RunFallback)
            },
        },
        PlStage::Retry => match event {
            PlEvent::Evaluated => (PlStage::Decided, PlAction::UseResult),
            PlEvent::Failed(_) => (PlStage::Fallback, PlAction::RunFallback),
        },
        PlStage::Fallback => (PlStage::Decided, PlAction::UseFallbackOutcome),
        PlStage::Decided => (PlStage::Decided, PlAction::Nothing),
    }
}

/// The script is evaluated at most twice and the fallback runs at most once: from the
/// first evaluation, every run of steps reaches a decision within three steps.
pub proof fn lemma_pl_steps_terminate(e1: PlEvent, e2: PlEvent, e3: PlEvent)
    ensures
        ({
            let s1 = pl_step(PlStage::Primary, e1).0;
            let s2 = if s1 == PlStage::Decided { s1 } else { pl_step(s1, e2).0 };
            let s3 = if s2 == PlStage::Decided { s2 } else { pl_step(s2, e3).0 };
            s3 == PlStage::Decided
        }),
{
}

/// Whether an evaluation of a priority logic succeeded.
#[derive(Debug, Clone, Copy, PartialEq, Eq, Structural)]
pub enum PlStatus {
    SUCCESS,
    FAILURE,
}

/// What an evaluation of one priority logic recorded: the logic's name, whether it
/// succeeded, and why it failed.
#[derive(Debug, Clone, PartialEq, Eq)]
pub struct PlLogicRecord {
    pub name: Option<String>,
    pub status: PlStatus,
    pub failure_reason: PlFailureReason,
}

/// The records of a priority-logic output: the primary logic, the fallback logic and
/// the tag of the logic whose gateways were used.
#[derive(Debug, Clone, PartialEq, Eq)]
pub struct PlLogicRecords {
    pub primary: Option<PlLogicRecord>,
    pub fallback: Option<PlLogicRecord>,
    pub tag: Option<String>,
}

/// A record marked with the failure that sent the decider on: when it recorded
/// another reason, it becomes a failure for `reason`; otherwise it stays as it is.
pub open spec fn record_with_failure(data: Option<PlLogicRecord>, reason: PlFailureReason) -> Option<PlLogicRecord> {
    match data {
        None => None,
        Some(d) => if d.failure_reason != reason {
            Some(PlLogicRecord { name: d.name, status: PlStatus::FAILURE, failure_reason: reason })
        } else {
            Some(d)
        },
    }
}

/// Marks a record with the failure `reason` unless it already records that reason.
pub fn checkAndUpdatePlFailureReason(data: Option<PlLogicRecord>, reason: PlFailureReason) -> (res: Option<PlLogicRecord>)
    ensures
        res == record_with_failure(data, reason),
{
    match data {
        None => None,
        Some(d) => if d.failure_reason != reason {
            Some(PlLogicRecord { name: d.name, status: PlStatus::FAILURE, failure_reason: reason })
        } else {
            Some(d)
        },
    }
}

/// The merchant's fallback logic is looked up and run only when a primary logic was
/// recorded and no fallback logic yet.
pub open spec fn fallback_run_needed(records: PlLogicRecords) -> bool {
    records.fallback is None && records.primary is Some
}

/// Marking a record with a failure twice is marking it once, and a marked record
/// records that failure.
pub proof fn lemma_record_with_failure_idempotent(data: Option<PlLogicRecord>, reason: PlFailureReason)
    ensures
        record_with_failure(record_with_failure(data, reason), reason) == record_with_failure(data, reason),
        record_with_failure(data, reason) matches Some(d) ==> d.failure_reason == reason,
{
}

/// Whether the fallback logic must be looked up and run for these records.
pub fn fallbackRunNeeded(records: &PlLogicRecords) -> (res: bool)
    ensures
        res == fallback_run_needed(*records),
{
    records.fallback.is_none() && records.primary.is_some()
}

/// The records once the fallback has been handled for a failure `reason`. When a run
/// was needed, the primary record is marked with the failure and, if the merchant has a
/// fallback logic (`fallback_run` holds what its evaluation recorded, success or
/// failure, and its tag), that record and tag are taken; without one the rest stays.
/// When no run was needed, the fallback record is marked with the failure instead.
pub open spec fn records_after_fallback(
    records: PlLogicRecords,
    reason: PlFailureReason,
    fallback_run: Option<(PlLogicRecord, Option<String>)>,
) -> PlLogicRecords {
    if fallback_run_needed(records) {
        match fallback_run {
            Some((data, tag)) => PlLogicRecords {
                primary: record_with_failure(records.primary, reason),
                fallback: Some(data),
                tag: tag,
            },
            None => PlLogicRecords {
                primary: record_with_failure(records.primary, reason),
                fallback: records.fallback,
                tag: records.tag,
            },
        }
    } else {
        PlLogicRecords {
            primary: records.primary,
            fallback: record_with_failure(records.fallback, reason),
            tag: records.tag,
        }
    }
}

/// Updates the records of a priority-logic output after its logic failed for
/// `reason`; the caller has run the fallback logic when [`fallbackRunNeeded`] asked for
/// it and hands in what that run recorded (none when the merchant has no fallback
/// logic).
pub fn handle_fallback_logic(
    records: PlLogicRecords,
    reason: PlFailureReason,
    fallback_run: Option<(PlLogicRecord, Option<String>)>,
) -> (res: PlLogicRecords)
    ensures
        res == records_after_fallback(records, reason, fallback_run),
{
    if fallbackRunNeeded(&records) {
        let PlLogicRecords { primary, fallback, tag } = records;
        match fallback_run {
            Some((data, fallback_tag)) => PlLogicRecords {
                primary: checkAndUpdatePlFailureReason(primary, reason),
                fallback: Some(data),
                tag: fallback_tag,
            },
            None => PlLogicRecords {
                primary: checkAndUpdatePlFailureReason(primary, reason),
                fallback: fallback,
                tag: tag,
            },
        }
    } else {
        let PlLogicRecords { primary, fallback, tag } = records;
        PlLogicRecords {
            primary: primary,
            fallback: checkAndUpdatePlFailureReason(fallback, reason),
            tag: tag,
        }
    }
}

/// The logic ids that a merchant's priority-logic configuration names: the active
/// logic, the staggered logic when the configuration staggers between two, and the
/// fallback logic.
#[derive(Debug, Clone, PartialEq, Eq)]
pub struct PlConfigIds {
    pub active_logic: String,
    pub staggered_logic: Option<String>,
    pub fallback_logic: Option<String>,
}

/// Where a merchant's priority-logic script comes from.
#[derive(Debug, Clone, PartialEq, Eq)]
pub enum PlScriptSource {
    /// The stored logic with this id (the merchant's own script when none is stored).
    LookUpLogic(String),
    /// The script written on the merchant account.
    MerchantScript,
    /// The tenant's configured fallback.
    TenantConfig,
}

/// Where the script comes from. A configuration that is present and not empty decides
/// when it decodes (`decoded`): the staggered logic when there is one and the rollout
/// chose it (`rolled_to_staggered`), else the active logic; one that does not decode
/// leaves the merchant's script. Without a configuration the merchant's script is used
/// unless it is blank, in which case the tenant's configuration is asked.
pub open spec fn pl_script_source(
    config: Option<Seq<char>>,
    decoded: Option<PlConfigIds>,
    rolled_to_staggered: bool,
    gateway_priority_logic: Seq<char>,
) -> PlScriptSource {
    let configured = match config {
        Some(t) => t.len() > 0,
        None => false,
    };
    if configured {
        match decoded {
            Some(c) => match c.staggered_logic {
                Some(s) => if rolled_to_staggered {
                    PlScriptSource::LookUpLogic(s)
                } else {
                    PlScriptSource::LookUpLogic(c.active_logic)
                },
                None => PlScriptSource::LookUpLogic(c.active_logic),
            },
            None => PlScriptSource::MerchantScript,
        }
    } else if trim_ws(gateway_priority_logic).len() == 0 {
        PlScriptSource::TenantConfig
    } else {
        PlScriptSource::MerchantScript
    }
}

/// Chooses where a merchant's priority-logic script comes from; `decoded` is the
/// configuration text read as logic ids (none when it does not read), and
/// `rolled_to_staggered` what the rollout chose when the configuration staggers.
pub fn get_priority_logic_script(
    priority_logic_config: &Option<String>,
    decoded: Option<PlConfigIds>,
    rolled_to_staggered: bool,
    gateway_priority_logic: &str,
) -> (res: PlScriptSource)
    ensures
        res == pl_script_source(opt_view(*priority_logic_config), decoded, rolled_to_staggered, gateway_priority_logic@),
{
    let configured = match priority_logic_config {
        Some(t) => t.as_str().unicode_len() > 0,
        None => false,
    };
    if configured {
        match decoded {
            Some(c) => match c.staggered_logic {
                Some(s) => if rolled_to_staggered {
                    PlScriptSource::LookUpLogic(s)
                } else {
                    PlScriptSource::LookUpLogic(c.active_logic)
                },
                None => PlScriptSource::LookUpLogic(c.active_logic),
            },
            None => PlScriptSource::MerchantScript,
        }
    } else if trim(gateway_priority_logic).as_str().unicode_len() == 0 {
        PlScriptSource::TenantConfig
    } else {
        PlScriptSource::MerchantScript
    }
}

/// The fallback logic to look up: the one the configuration names, when it reads.
pub fn fallbackLogicId(decoded: Option<PlConfigIds>) -> (res: Option<String>)
    ensures
        res == match decoded {
            Some(c) => c.fallback_logic,
            None => None,
        },
{
    match decoded {
        Some(c) => c.fallback_logic,
        None => None,
    }
}

} // verus!
