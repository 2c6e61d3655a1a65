//! Helpers of the score feedback consumer.
use vstd::prelude::*;
use crate::text::{str_eq, parse_i32, spec_parse_i32, opt_view};
use crate::feedback::types::{MandateTxnType, TxnObjectType, TxnStatus};
use crate::decider::flows::{txnCreationTime, txn_creation_time};
use crate::decider::types::{DetailedGatewayScoringType, GatewayScoringTypeLogData, RoutingFlowType};

verus! {

/// Which way a transaction moves a gateway's score.
#[derive(Debug, Clone, Copy, PartialEq, Eq, Structural)]
pub enum GatewayScoringType {
    PENALISE,
    PENALISE_SRV3,
    REWARD,
}

/// The bank code stored in a transaction's internal metadata.
#[derive(Debug, Clone)]
pub struct JuspayBankCode {
    pub juspayBankCode: String,
}

/// How a card transaction was authenticated.
#[derive(Debug, Clone, Copy, PartialEq, Eq, Structural)]
pub enum AuthType {
    ATMPIN,
    THREE_DS,
    THREE_DS_2,
    OTP,
    OBO_OTP,
    VIES,
    NO_THREE_DS,
    NETWORK_TOKEN,
    MOTO,
    FIDO,
    CTP,
}

/// The text itself unless it is empty.
pub fn getTrueString(val: Option<String>) -> (res: Option<String>)
    ensures
        match val {
            Some(v) => if v@.len() == 0 { res is None } else { res == Some(v) },
            None => res is None,
        },
{
    match val {
        Some(value) => {
            if value.as_str().unicode_len() == 0 {
                None
            } else {
                Some(value)
            }
        },
        None => None,
    }
}

/// Whether `c` has the Unicode `White_Space` property, as `char::is_whitespace` tests
/// it: tab through carriage return, space, next line, no-break space, ogham space mark,
/// the spaces U+2000 to U+200A, line and paragraph separators, narrow no-break space,
/// medium mathematical space and ideographic space.
pub open spec fn is_white_space(c: char) -> bool {
    ||| ('\u{9}' <= c && c <= '\u{d}')
    ||| c == ' '
    ||| c == '\u{85}'
    ||| c == '\u{a0}'
    ||| c == '\u{1680}'
    ||| ('\u{2000}' <= c && c <= '\u{200a}')
    ||| c == '\u{2028}'
    ||| c == '\u{2029}'
    ||| c == '\u{202f}'
    ||| c == '\u{205f}'
    ||| c == '\u{3000}'
}

/// Whether `c` is white space.
pub fn char_is_whitespace(c: char) -> (res: bool)
    ensures
        res == is_white_space(c),
{
    ('\u{9}' <= c && c <= '\u{d}')
        || c == ' '
        || c == '\u{85}'
        || c == '\u{a0}'
        || c == '\u{1680}'
        || ('\u{2000}' <= c && c <= '\u{200a}')
        || c == '\u{2028}'
        || c == '\u{2029}'
        || c == '\u{202f}'
        || c == '\u{205f}'
        || c == '\u{3000}'
}

/// The text holds something besides white space.
pub open spec fn has_content(s: Seq<char>) -> bool {
    exists|i: int| 0 <= i < s.len() && !is_white_space(#[trigger] s[i])
}

/// Whether a value is present and not blank once trimmed.
pub fn isTrueString(val: Option<String>) -> (res: bool)
    ensures
        res == match val {
            Some(v) => has_content(v@),
            None => false,
        },
{
    match val {
        None => false,
        Some(v) => {
            let n = v.as_str().unicode_len();
            let mut i: usize = 0;
            while i < n
                invariant
                    n == v@.len(),
                    i <= n,
                    val == Some(v),
                    forall|j: int| 0 <= j < i ==> is_white_space(#[trigger] v@[j]),
                decreases n - i,
            {
                let c = v.as_str().get_char(i);
                if !char_is_whitespace(c) {
                    assert(!is_white_space(v@[i as int]));
                    assert(has_content(v@));
                    return true;
                }
                i = i + 1;
            }
            false
        },
    }
}

/// The `strftime` pattern for a date format written in the merchants' notation;
/// unknown notations fall back to `%F %T`.
pub open spec fn date_time_format(f: Seq<char>) -> Seq<char> {
    if f == "YYYY-MM-DD HH:mm:ss"@ {
        "%F %T"@
    } else if f == "YYYY/MM/DD"@ {
        "%Y/%m/%d"@
    } else if f == "YYYY/MM/DD HH:MM:SS"@ {
        "%Y/%m/%d %H:%M:%S"@
    } else if f == "YYYY-MM-DD"@ {
        "%F"@
    } else if f == "DD-MM-YYYY HH:mm:ss"@ {
        "%d-%m-%Y %H:%M:%S"@
    } else if f == "DD-MM-YYYY HH:mm"@ {
        "%d-%m-%Y %R"@
    } else if f == "YYYYMMDDHHMMSS"@ {
        "%Y%m%d%H%M%S"@
    } else if f == "DDMMYYYYHHMMSS"@ {
        "%d%m%Y%H%M%S"@
    } else if f == "YYYYMMDD"@ {
        "%Y%m%d"@
    } else if f == "DD-MM-YYYY"@ {
        "%d-%m-%Y"@
    } else if f == "DD/MM/YYYY hh:mm A"@ {
        "%d/%m/%Y %I:%M %p"@
    } else if f == "YYYY-MM-DD HH:mm:ss.ms Z"@ {
        "%Y-%m-%d %H:%M:%S %z"@
    } else if f == "X"@ {
        "%s"@
    } else if f == "DDMMYYYY"@ {
        "%d%m%Y"@
    } else if f == "YYYY:MM:DD HH:mm:ssZ"@ {
        "%Y:%m:%d %H:%M:%S %z"@
    } else if f == "YYYY-MM-DD HH:mm:ss.SZ"@ {
        "%F %H:%M:%S %z"@
    } else if f == "YYYYDDMMHHmmssZ"@ {
        "%Y%d%m%H%M%S%z"@
    } else if f == "DD/MM/YYYY"@ {
        "%d/%m/%Y"@
    } else if f == "DD/MM/YYYY HH:mm"@ {
        "%d/%m/%Y %H:%M"@
    } else if f == "DD/MM/YYYY HH:MM:SS"@ {
        "%d/%m/%Y %H:%M:%S"@
    } else if f == "yyyy:MM:DD-HH:mm:ss"@ {
        "%Y:%m:%d-%H:%M:%S"@
    } else if f == "ddd, DD MMM YYYY hh:mm:ss [GMT]"@ {
        "%a, %d %b %Y %H:%M:%S GMT"@
    } else if f == "MMM DD, YYYY HH:MM:SS A"@ {
        "%b %d, %Y %H:%M:%S %p"@
    } else if f == "YYYY-MM-DD HH:mm:SS.sss"@ {
        "%Y-%m-%d %H:%M:%S.%q"@
    } else if f == "DD-MM-YYYY hh:mm A"@ {
        "%d-%m-%Y %I:%M %p"@
    } else {
        "%F %T"@
    }
}

/// Translates a date format in the merchants' notation into a `strftime` pattern.
pub fn getDateTimeFormat(format: &str) -> (res: &'static str)
    ensures
        res@ == date_time_format(format@),
{
    if str_eq(format, "YYYY-MM-DD HH:mm:ss") {
        return "%F %T";
    }
    if str_eq(format, "YYYY/MM/DD") {
        return "%Y/%m/%d";
    }
    if str_eq(format, "YYYY/MM/DD HH:MM:SS") {
        return "%Y/%m/%d %H:%M:%S";
    }
    if str_eq(format, "YYYY-MM-DD") {
        return "%F";
    }
    if str_eq(format, "DD-MM-YYYY HH:mm:ss") {
        return "%d-%m-%Y %H:%M:%S";
    }
    if str_eq(format, "DD-MM-YYYY HH:mm") {
        return "%d-%m-%Y %R";
    }
    if str_eq(format, "YYYYMMDDHHMMSS") {
        return "%Y%m%d%H%M%S";
    }
    if str_eq(format, "DDMMYYYYHHMMSS") {
        return "%d%m%Y%H%M%S";
    }
    if str_eq(format, "YYYYMMDD") {
        return "%Y%m%d";
    }
    if str_eq(format, "DD-MM-YYYY") {
        return "%d-%m-%Y";
    }
    if str_eq(format, "DD/MM/YYYY hh:mm A") {
        return "%d/%m/%Y %I:%M %p";
    }
    if str_eq(format, "YYYY-MM-DD HH:mm:ss.ms Z") {
        return "%Y-%m-%d %H:%M:%S %z";
    }
    if str_eq(format, "X") {
        return "%s";
    }
    if str_eq(format, "DDMMYYYY") {
        return "%d%m%Y";
    }
    if str_eq(format, "YYYY:MM:DD HH:mm:ssZ") {
        return "%Y:%m:%d %H:%M:%S %z";
    }
    if str_eq(format, "YYYY-MM-DD HH:mm:ss.SZ") {
        return "%F %H:%M:%S %z";
    }
    if str_eq(format, "YYYYDDMMHHmmssZ") {
        return "%Y%d%m%H%M%S%z";
    }
    if str_eq(format, "DD/MM/YYYY") {
        return "%d/%m/%Y";
    }
    if str_eq(format, "DD/MM/YYYY HH:mm") {
        return "%d/%m/%Y %H:%M";
    }
    if str_eq(format, "DD/MM/YYYY HH:MM:SS") {
        return "%d/%m/%Y %H:%M:%S";
    }
    if str_eq(format, "yyyy:MM:DD-HH:mm:ss") {
        return "%Y:%m:%d-%H:%M:%S";
    }
    if str_eq(format, "ddd, DD MMM YYYY hh:mm:ss [GMT]") {
        return "%a, %d %b %Y %H:%M:%S GMT";
    }
    if str_eq(format, "MMM DD, YYYY HH:MM:SS A") {
        return "%b %d, %Y %H:%M:%S %p";
    }
    if str_eq(format, "YYYY-MM-DD HH:mm:SS.sss") {
        return "%Y-%m-%d %H:%M:%S.%q";
    }
    if str_eq(format, "DD-MM-YYYY hh:mm A") {
        return "%d-%m-%Y %I:%M %p";
    }
    "%F %T"
}

/// The object types of recurring (mandate and e-mandate) payments.
pub open spec fn recurring_txn_object_types() -> Seq<TxnObjectType> {
    seq![
        TxnObjectType::MANDATE_PAYMENT,
        TxnObjectType::EMANDATE_PAYMENT,
        TxnObjectType::TPV_MANDATE_PAYMENT,
        TxnObjectType::TPV_EMANDATE_PAYMENT,
    ]
}

/// The object types of mandate registrations.
pub open spec fn mandate_register_txn_object_types() -> Seq<TxnObjectType> {
    seq![
        TxnObjectType::MANDATE_REGISTER,
        TxnObjectType::EMANDATE_REGISTER,
        TxnObjectType::TPV_EMANDATE_REGISTER,
        TxnObjectType::TPV_MANDATE_REGISTER,
    ]
}

pub fn recurringTxnObjectTypes() -> (res: Vec<TxnObjectType>)
    ensures
        res@ == recurring_txn_object_types(),
{
    let v = vec![
        TxnObjectType::MANDATE_PAYMENT,
        TxnObjectType::EMANDATE_PAYMENT,
        TxnObjectType::TPV_MANDATE_PAYMENT,
        TxnObjectType::TPV_EMANDATE_PAYMENT,
    ];
    assert(v@ =~= recurring_txn_object_types());
    v
}

pub fn mandateRegisterTxnObjectTypes() -> (res: Vec<TxnObjectType>)
    ensures
        res@ == mandate_register_txn_object_types(),
{
    let v = vec![
        TxnObjectType::MANDATE_REGISTER,
        TxnObjectType::EMANDATE_REGISTER,
        TxnObjectType::TPV_EMANDATE_REGISTER,
        TxnObjectType::TPV_MANDATE_REGISTER,
    ];
    assert(v@ =~= mandate_register_txn_object_types());
    v
}

fn contains_object_type(v: &Vec<TxnObjectType>, t: TxnObjectType) -> (res: bool)
    ensures
        res == v@.contains(t),
{
    let mut i: usize = 0;
    while i < v.len()
        invariant
            i <= v.len(),
            forall|j: int| 0 <= j < i ==> v@[j] != t,
        decreases v.len() - i,
    {
        if v[i] == t {
            assert(v@[i as int] == t);
            return true;
        }
        i = i + 1;
    }
    false
}

/// Whether the transaction registers a mandate.
pub fn isMandateRegTxn(txn_object_type: TxnObjectType) -> (res: bool)
    ensures
        res == mandate_register_txn_object_types().contains(txn_object_type),
{
    let types = mandateRegisterTxnObjectTypes();
    contains_object_type(&types, txn_object_type)
}

/// Whether the transaction is a recurring payment.
pub fn isRecurringTxn(txn_object_type: Option<TxnObjectType>) -> (res: bool)
    ensures
        res == (txn_object_type matches Some(t) && recurring_txn_object_types().contains(t)),
{
    match txn_object_type {
        Some(t) => {
            let types = recurringTxnObjectTypes();
            contains_object_type(&types, t)
        },
        None => false,
    }
}

/// Reads a decimal `i32`, if the text is one.
pub fn fromString(s: &str) -> (res: Option<i32>)
    ensures
        res == spec_parse_i32(s@),
{
    parse_i32(s)
}

/// Keeps the success value and forgets the error.
pub fn hush<A, B>(e: Result<B, A>) -> (res: Option<B>)
    ensures
        match e {
            Ok(b) => res == Some(b),
            Err(_) => res is None,
        },
{
    match e {
        Err(_) => None,
        Ok(b) => Some(b),
    }
}

/// The authentication type that a text names; other texts name none.
pub open spec fn auth_type_of(t: Option<String>) -> Option<AuthType> {
    match t {
        None => None,
        Some(v) => if v@ == "ATMPIN"@ {
            Some(AuthType::ATMPIN)
        } else if v@ == "THREE_DS"@ {
            Some(AuthType::THREE_DS)
        } else if v@ == "THREE_DS_2"@ {
            Some(AuthType::THREE_DS_2)
        } else if v@ == "OTP"@ {
            Some(AuthType::OTP)
        } else if v@ == "OBO_OTP"@ {
            Some(AuthType::OBO_OTP)
        } else if v@ == "VIES"@ {
            Some(AuthType::VIES)
        } else if v@ == "NO_THREE_DS"@ {
            Some(AuthType::NO_THREE_DS)
        } else if v@ == "NETWORK_TOKEN"@ {
            Some(AuthType::NETWORK_TOKEN)
        } else if v@ == "MOTO"@ {
            Some(AuthType::MOTO)
        } else if v@ == "FIDO"@ {
            Some(AuthType::FIDO)
        } else if v@ == "CTP"@ {
            Some(AuthType::CTP)
        } else {
            None
        },
    }
}

/// Reads an authentication type from its name.
pub fn textToAuthType(auth_type: Option<String>) -> (res: Option<AuthType>)
    ensures
        res == auth_type_of(auth_type),
{
    match auth_type {
        None => None,
        Some(v) => {
            if str_eq(v.as_str(), "ATMPIN") {
                return Some(AuthType::ATMPIN);
            }
            if str_eq(v.as_str(), "THREE_DS") {
                return Some(AuthType::THREE_DS);
            }
            if str_eq(v.as_str(), "THREE_DS_2") {
                return Some(AuthType::THREE_DS_2);
            }
            if str_eq(v.as_str(), "OTP") {
                return Some(AuthType::OTP);
            }
            if str_eq(v.as_str(), "OBO_OTP") {
                return Some(AuthType::OBO_OTP);
            }
            if str_eq(v.as_str(), "VIES") {
                return Some(AuthType::VIES);
            }
            if str_eq(v.as_str(), "NO_THREE_DS") {
                return Some(AuthType::NO_THREE_DS);
            }
            if str_eq(v.as_str(), "NETWORK_TOKEN") {
                return Some(AuthType::NETWORK_TOKEN);
            }
            if str_eq(v.as_str(), "MOTO") {
                return Some(AuthType::MOTO);
            }
            if str_eq(v.as_str(), "FIDO") {
                return Some(AuthType::FIDO);
            }
            if str_eq(v.as_str(), "CTP") {
                return Some(AuthType::CTP);
            }
            None
        },
    }
}

/// The detailed kind of a score update: the routing flow it was made for and whether
/// it rewarded the gateway (anything else counts as a penalty).
pub open spec fn detailed_gateway_scoring_type_spec(
    gateway_score_type: GatewayScoringType,
    routing_flow_type: RoutingFlowType,
) -> DetailedGatewayScoringType {
    match routing_flow_type {
        RoutingFlowType::ELIMINATION_FLOW => if gateway_score_type == GatewayScoringType::REWARD {
            DetailedGatewayScoringType::ELIMINATION_REWARD
        } else {
            DetailedGatewayScoringType::ELIMINATION_PENALISE
        },
        RoutingFlowType::SRV2_FLOW => if gateway_score_type == GatewayScoringType::REWARD {
            DetailedGatewayScoringType::SRV2_REWARD
        } else {
            DetailedGatewayScoringType::SRV2_PENALISE
        },
        RoutingFlowType::SRV3_FLOW => if gateway_score_type == GatewayScoringType::REWARD {
            DetailedGatewayScoringType::SRV3_REWARD
        } else {
            DetailedGatewayScoringType::SRV3_PENALISE
        },
    }
}

/// Names the detailed kind of a score update.
pub fn detailed_gateway_scoring_type(
    gateway_score_type: GatewayScoringType,
    routing_flow_type: RoutingFlowType,
) -> (res: DetailedGatewayScoringType)
    ensures
        res == detailed_gateway_scoring_type_spec(gateway_score_type, routing_flow_type),
{
    match routing_flow_type {
        RoutingFlowType::ELIMINATION_FLOW => match gateway_score_type {
            GatewayScoringType::REWARD => DetailedGatewayScoringType::ELIMINATION_REWARD,
            _ => DetailedGatewayScoringType::ELIMINATION_PENALISE,
        },
        RoutingFlowType::SRV2_FLOW => match gateway_score_type {
            GatewayScoringType::REWARD => DetailedGatewayScoringType::SRV2_REWARD,
            _ => DetailedGatewayScoringType::SRV2_PENALISE,
        },
        _ => match gateway_score_type {
            GatewayScoringType::REWARD => DetailedGatewayScoringType::SRV3_REWARD,
            _ => DetailedGatewayScoringType::SRV3_PENALISE,
        },
    }
}

/// The outcome of writing a score to the two caches. All four cache operations are
/// made in turn (write to the primary cache, write to the fallback cache, delete from
/// the primary, delete from the fallback); this decides what the write reports.
/// A primary write that succeeded reports `0` when the fallback is disabled and the
/// primary delete's outcome otherwise; a failed primary write reports its error when
/// the fallback is disabled, and otherwise `0` if the fallback write succeeded.
pub fn cache_write_result<E>(
    disable_fallback: bool,
    primary_write: Result<(), E>,
    fallback_write: Result<(), E>,
    primary_delete: Result<i32, E>,
) -> (res: Result<i32, E>)
    ensures
        match primary_write {
            Ok(_) => if disable_fallback { res == Ok::<i32, E>(0) } else { res == primary_delete },
            Err(err) => if disable_fallback {
                res == Err::<i32, E>(err)
            } else {
                match fallback_write {
                    Ok(_) => res == Ok::<i32, E>(0),
                    Err(_) => res == Err::<i32, E>(err),
                }
            },
        },
{
    match primary_write {
        Ok(_) => {
            if disable_fallback {
                Ok(0)
            } else {
                primary_delete
            }
        },
        Err(err) => {
            if disable_fallback {
                Err(err)
            } else {
                match fallback_write {
                    Ok(_) => Ok(0),
                    Err(_) => Err(err),
                }
            }
        },
    }
}

/// A mandate transaction that only registers moves a penny.
pub fn isPennyTxnType(txn_type: MandateTxnType) -> (res: bool)
    ensures
        res == (txn_type == MandateTxnType::REGISTER),
{
    txn_type == MandateTxnType::REGISTER
}

/// A mandate registration (an order payment when the object type is unknown) whose
/// mandate only registers.
pub fn isPennyMandateRegTxn(txn_object_type: Option<TxnObjectType>, txn_type: MandateTxnType) -> (res: bool)
    ensures
        res == (mandate_register_txn_object_types().contains(match txn_object_type {
            Some(t) => t,
            None => TxnObjectType::ORDER_PAYMENT,
        }) && txn_type == MandateTxnType::REGISTER),
{
    let t = match txn_object_type {
        Some(t) => t,
        None => TxnObjectType::ORDER_PAYMENT,
    };
    if isMandateRegTxn(t) {
        isPennyTxnType(txn_type)
    } else {
        false
    }
}

/// What is logged when a gateway's score is updated: the transaction's creation time
/// in ISO form and the detailed kind of the update.
pub fn gatewayScoringTypeLogData(
    gateway_score_type: GatewayScoringType,
    routing_flow_type: RoutingFlowType,
    date_created: &str,
) -> (res: GatewayScoringTypeLogData)
    ensures
        res.dateCreated@ == txn_creation_time(date_created@),
        res.score_type == detailed_gateway_scoring_type_spec(gateway_score_type, routing_flow_type),
{
    GatewayScoringTypeLogData {
        dateCreated: txnCreationTime(date_created),
        score_type: detailed_gateway_scoring_type(gateway_score_type, routing_flow_type),
    }
}

/// What chrono renders: `db_date` read as a UTC date and time with the `strftime`
/// pattern `db_pattern`, shifted to the fixed offset `offset_secs` east of UTC, and
/// written with the `strftime` pattern `format`; none when the date does not read
/// with its pattern, the offset is out of range, or `format` is not a valid pattern.
pub uninterp spec fn chrono_render(db_date: Seq<char>, db_pattern: Seq<char>, offset_secs: i32, format: Seq<char>) -> Option<Seq<char>>;

/// Renders a UTC date in a fixed offset with chrono: `NaiveDateTime::parse_from_str`,
/// `FixedOffset::east_opt` (none outside a day either way), the shift into the offset,
/// and `DelayedFormat::write_to`, whose error on an invalid pattern gives none. The
/// result is named by [`chrono_render`]; what chrono writes for each pattern is left
/// to chrono.
#[verifier::external_body]
pub(crate) fn render_in_offset(db_date: &str, db_pattern: &str, offset_secs: i32, format: &str) -> (res: Option<String>)
    ensures
        opt_view(res) == chrono_render(db_date@, db_pattern@, offset_secs, format@),
        !(-86400 < offset_secs && offset_secs < 86400) ==> res is None,
{
    let naive = chrono::NaiveDateTime::parse_from_str(db_date, db_pattern).ok()?;
    let offset = chrono::FixedOffset::east_opt(offset_secs)?;
    let local = chrono::DateTime::<chrono::Utc>::from_naive_utc_and_offset(naive, chrono::Utc).with_timezone(&offset);
    let mut out = String::new();
    local.format(format).write_to(&mut out).ok()?;
    Some(out)
}

/// The pattern of the dates the stores hold.
pub const DB_DATE_PATTERN: &'static str = "%Y-%m-%d %H:%M:%S";

/// India's offset east of UTC, in seconds.
pub const IST_OFFSET_SECS: i32 = 19800;

/// A stored UTC date shown in Indian time with a `strftime` pattern; none when the date
/// is not in the stores' pattern or `format` is not a valid pattern.
pub fn dateInIST(db_date: &str, format: &str) -> (res: Option<String>)
    ensures
        opt_view(res) == chrono_render(db_date@, DB_DATE_PATTERN@, IST_OFFSET_SECS, format@),
{
    render_in_offset(db_date, DB_DATE_PATTERN, IST_OFFSET_SECS, format)
}

/// The time `now_utc` (a UTC time in the stores' pattern, as the clock was read) shown
/// in Indian time, written in a merchants' date notation.
pub fn getCurrentIstDateWithFormat(now_utc: &str, notation: &str) -> (res: Option<String>)
    ensures
        opt_view(res) == chrono_render(now_utc@, DB_DATE_PATTERN@, IST_OFFSET_SECS, date_time_format(notation@)),
{
    dateInIST(now_utc, getDateTimeFormat(notation))
}

} // verus!
