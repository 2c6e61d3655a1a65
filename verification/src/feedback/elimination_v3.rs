//! Success-rate (v3) score keys and the decisions of their moving-window update.
use vstd::prelude::*;
use crate::decider::gw_filter::views;
use crate::feedback::types::{
    PaymentMethodType, SrV3DebugBlock, TxnObjectType, payment_method_type_text, defaultEnumEncodeT,
};
use crate::feedback::utils::GatewayScoringType;
use crate::text::{
    join_with, split_on, split_on_char, str_to_uppercase, uppercase, text_or, string_or, opt_view,
    clone_opt, opt_is, string_push, str_eq, cat, lemma_split_on_nonempty, string_or_empty,
};

verus! {

/// The prefix of every v3 score key.
pub const GATEWAY_SELECTION_V3_ORDER_TYPE_KEY_PREFIX: &'static str = "{gw_sr_v3_score";

/// The prefix of the key under which a merchant's pending transactions are kept.
pub const PENDING_TXNS_KEY_PREFIX: &'static str = "PENDING_TXNS_";

/// The window size used when neither the merchant nor the default configuration sets one.
pub const DEFAULT_SR_V3_BASED_BUCKET_SIZE: i32 = 125;

/// The name of a transaction object type, as it is written in keys.
pub open spec fn txn_object_type_text(t: TxnObjectType) -> Seq<char> {
    match t {
        TxnObjectType::MANDATE_REGISTER => "MANDATE_REGISTER"@,
        TxnObjectType::MANDATE_PAYMENT => "MANDATE_PAYMENT"@,
        TxnObjectType::ORDER_PAYMENT => "ORDER_PAYMENT"@,
        TxnObjectType::EMANDATE_REGISTER => "EMANDATE_REGISTER"@,
        TxnObjectType::EMANDATE_PAYMENT => "EMANDATE_PAYMENT"@,
        TxnObjectType::TPV_PAYMENT => "TPV_PAYMENT"@,
        TxnObjectType::PARTIAL_CAPTURE => "PARTIAL_CAPTURE"@,
        TxnObjectType::PARTIAL_VOID => "PARTIAL_VOID"@,
        TxnObjectType::TPV_EMANDATE_REGISTER => "TPV_EMANDATE_REGISTER"@,
        TxnObjectType::TPV_MANDATE_REGISTER => "TPV_MANDATE_REGISTER"@,
        TxnObjectType::TPV_EMANDATE_PAYMENT => "TPV_EMANDATE_PAYMENT"@,
        TxnObjectType::TPV_MANDATE_PAYMENT => "TPV_MANDATE_PAYMENT"@,
        TxnObjectType::VAN_PAYMENT => "VAN_PAYMENT"@,
        TxnObjectType::MOTO_PAYMENT => "MOTO_PAYMENT"@,
    }
}

/// Writes a transaction object type by its name.
pub fn txnObjectTypeText(t: TxnObjectType) -> (res: String)
    ensures
        res@ == txn_object_type_text(t),
{
    match t {
        TxnObjectType::MANDATE_REGISTER => String::from_str("MANDATE_REGISTER"),
        TxnObjectType::MANDATE_PAYMENT => String::from_str("MANDATE_PAYMENT"),
        TxnObjectType::ORDER_PAYMENT => String::from_str("ORDER_PAYMENT"),
        TxnObjectType::EMANDATE_REGISTER => String::from_str("EMANDATE_REGISTER"),
        TxnObjectType::EMANDATE_PAYMENT => String::from_str("EMANDATE_PAYMENT"),
        TxnObjectType::TPV_PAYMENT => String::from_str("TPV_PAYMENT"),
        TxnObjectType::PARTIAL_CAPTURE => String::from_str("PARTIAL_CAPTURE"),
        TxnObjectType::PARTIAL_VOID => String::from_str("PARTIAL_VOID"),
        TxnObjectType::TPV_EMANDATE_REGISTER => String::from_str("TPV_EMANDATE_REGISTER"),
        TxnObjectType::TPV_MANDATE_REGISTER => String::from_str("TPV_MANDATE_REGISTER"),
        TxnObjectType::TPV_EMANDATE_PAYMENT => String::from_str("TPV_EMANDATE_PAYMENT"),
        TxnObjectType::TPV_MANDATE_PAYMENT => String::from_str("TPV_MANDATE_PAYMENT"),
        TxnObjectType::VAN_PAYMENT => String::from_str("VAN_PAYMENT"),
        TxnObjectType::MOTO_PAYMENT => String::from_str("MOTO_PAYMENT"),
    }
}

/// Keeps the pieces that hold at least one character.
pub open spec fn nonempty_parts(parts: Seq<Seq<char>>) -> Seq<Seq<char>> {
    parts.filter(|p: Seq<char>| p.len() > 0)
}

/// The pieces joined with `sep` between consecutive pieces, empty pieces left out.
pub open spec fn join_nonempty(parts: Seq<Seq<char>>, sep: char) -> Seq<char> {
    join_with(nonempty_parts(parts), sep)
}

/// Joins the pieces with `sep`, empty ones included.
pub fn intercalate(sep: char, parts: &Vec<String>) -> (res: String)
    ensures
        res@ == join_with(views(parts@), sep),
{
    let mut out = String::new();
    let mut i: usize = 0;
    while i < parts.len()
        invariant
            i <= parts.len(),
            out@ == join_with(views(parts@).take(i as int), sep),
        decreases parts.len() - i,
    {
        let ghost prev = views(parts@).take(i as int);
        let ghost next = views(parts@).take(i + 1);
        assert(next.drop_last() =~= prev);
        assert(next.last() == parts@[i as int]@);
        if i > 0 {
            string_push(&mut out, sep);
        }
        out.append(parts[i].as_str());
        proof {
            if i == 0 {
                assert(out@ =~= next[0]);
            } else {
                assert(out@ =~= join_with(prev, sep) + seq![sep] + next.last());
            }
        }
        i = i + 1;
    }
    assert(views(parts@).take(parts.len() as int) =~= views(parts@));
    out
}

/// Joins the pieces that are not empty with `sep` between them.
pub fn intercalateWithoutEmptyString(sep: char, parts: &Vec<String>) -> (res: String)
    ensures
        res@ == join_nonempty(views(parts@), sep),
{
    let ghost pred = |p: Seq<char>| p.len() > 0;
    let mut out = String::new();
    let mut count: usize = 0;
    let mut i: usize = 0;
    assert(views(parts@).take(0).filter(pred) =~= Seq::<Seq<char>>::empty()) by {
        reveal(Seq::filter);
    }
    while i < parts.len()
        invariant
            i <= parts.len(),
            pred == (|p: Seq<char>| p.len() > 0),
            count == views(parts@).take(i as int).filter(pred).len(),
            count <= i,
            out@ == join_with(views(parts@).take(i as int).filter(pred), sep),
        decreases parts.len() - i,
    {
        let ghost prev = views(parts@).take(i as int);
        let ghost g = views(parts@)[i as int];
        assert(g == parts@[i as int]@);
        assert(views(parts@).take(i + 1) =~= prev.push(g));
        proof { prev.lemma_filter_push(g, pred); }
        let piece = parts[i].as_str();
        if piece.unicode_len() > 0 {
            let ghost fprev = prev.filter(pred);
            let ghost fnext = fprev.push(g);
            assert(fnext.drop_last() =~= fprev);
            if count > 0 {
                string_push(&mut out, sep);
            }
            out.append(piece);
            proof {
                if count == 0 {
                    assert(out@ =~= fnext[0]);
                } else {
                    assert(out@ =~= join_with(fprev, sep) + seq![sep] + g);
                }
            }
            count = count + 1;
        }
        i = i + 1;
    }
    assert(views(parts@).take(parts.len() as int) =~= views(parts@));
    out
}

/// What the v3 keys are built from, read off the transaction, its card and its
/// gateway account.
#[derive(Debug, Clone)]
pub struct SrV3KeyInput {
    pub merchant_id: String,
    pub gateway: String,
    pub payment_method_type: PaymentMethodType,
    pub txn_object_type: Option<TxnObjectType>,
    pub payment_method: Option<String>,
    pub card_type: Option<String>,
    pub auth_type: Option<String>,
    pub source_object: Option<String>,
    pub payment_source: Option<String>,
    /// The bank code found from the card's payment source.
    pub card_bank_code: Option<String>,
    /// The bank code of the UPI app, from the transaction's internal metadata.
    pub psp_bank_code: Option<String>,
    /// The reference id of the gateway account the transaction went through.
    pub gateway_reference_id: Option<String>,
}

/// The merchant's key settings and the lists that a dimension must appear in to count.
#[derive(Debug, Clone)]
pub struct SrV3KeyConfig {
    pub gateway_reference_id_enabled: bool,
    pub auth_type_enabled: bool,
    pub bank_level_enabled: bool,
    pub psp_app_enabled: bool,
    pub psp_package_enabled: bool,
    pub top_banks: Vec<String>,
    pub upi_handles: Vec<String>,
    pub upi_psps: Vec<String>,
    pub upi_packages: Vec<String>,
}

/// `x` when `list` holds it, else the empty text.
pub open spec fn listed_or_empty(x: Seq<char>, list: Seq<Seq<char>>) -> Seq<char> {
    if list.contains(x) { x } else { Seq::empty() }
}

/// The source object a UPI payment is keyed by: the transaction's own when the payment
/// method reads `UPI`, else the payment method.
pub open spec fn source_object_of(i: SrV3KeyInput) -> Option<Seq<char>> {
    if opt_view(i.payment_method) == Some("UPI"@) {
        opt_view(i.source_object)
    } else {
        opt_view(i.payment_method)
    }
}

pub open spec fn order_type_text(t: Option<TxnObjectType>) -> Seq<char> {
    match t {
        Some(t) => txn_object_type_text(t),
        None => Seq::empty(),
    }
}

/// The dimensions every key starts with.
pub open spec fn base_key(i: SrV3KeyInput) -> Seq<Seq<char>> {
    seq![
        GATEWAY_SELECTION_V3_ORDER_TYPE_KEY_PREFIX@,
        i.merchant_id@,
        order_type_text(i.txn_object_type),
        payment_method_type_text(i.payment_method_type),
    ]
}

pub open spec fn card_key(i: SrV3KeyInput) -> Seq<Seq<char>> {
    seq![text_or(i.payment_method, Seq::empty()), text_or(i.card_type, Seq::empty())]
}

/// The UPI handle of a collect request: what follows the last `@` of the payment
/// source, in uppercase; empty when there is no payment source.
pub open spec fn upi_handle(i: SrV3KeyInput) -> Seq<char> {
    match i.payment_source {
        Some(ps) => if ps@.len() > 0 { str_to_uppercase(split_on(ps@, '@').last()) } else { Seq::empty() },
        None => Seq::empty(),
    }
}

/// The UPI app package of an intent payment: the payment source in uppercase.
pub open spec fn upi_package(i: SrV3KeyInput) -> Seq<char> {
    match i.payment_source {
        Some(ps) => if ps@.len() > 0 { str_to_uppercase(ps@) } else { Seq::empty() },
        None => Seq::empty(),
    }
}

/// The UPI dimension of the one-dimensional key: the payment method when it reads
/// `UPI`, else the transaction's source object (the other way round from the
/// three-dimensional key's [`source_object_of`]); empty when there is none.
pub open spec fn one_d_upi_dimension(i: SrV3KeyInput) -> Seq<char> {
    if opt_view(i.payment_method) == Some("UPI"@) {
        "UPI"@
    } else {
        text_or(i.source_object, Seq::empty())
    }
}

/// The dimensions of the one-dimensional key.
pub open spec fn one_d_parts(i: SrV3KeyInput) -> Seq<Seq<char>> {
    match i.payment_method_type {
        PaymentMethodType::UPI => base_key(i).push(one_d_upi_dimension(i)),
        PaymentMethodType::CARD => base_key(i) + card_key(i),
        _ => base_key(i).push(text_or(i.payment_method, Seq::empty())),
    }
}

pub open spec fn is_collect(so: Option<Seq<char>>) -> bool {
    so == Some("UPI_COLLECT"@) || so == Some("COLLECT"@)
}

pub open spec fn is_pay(so: Option<Seq<char>>) -> bool {
    so == Some("UPI_PAY"@) || so == Some("PAY"@)
}

/// The dimensions of the three-dimensional key.
pub open spec fn three_d_parts(i: SrV3KeyInput, c: SrV3KeyConfig) -> Seq<Seq<char>> {
    let base = base_key(i);
    let so = source_object_of(i);
    let so_text = match so { Some(s) => s, None => Seq::empty() };
    match i.payment_method_type {
        PaymentMethodType::CARD => if c.auth_type_enabled {
            (base + card_key(i)).push(text_or(i.auth_type, Seq::empty()))
        } else if c.bank_level_enabled {
            (base + card_key(i)).push(listed_or_empty(text_or(i.card_bank_code, "UNKNOWN"@), views(c.top_banks@)))
        } else {
            base + card_key(i)
        },
        PaymentMethodType::UPI => if is_collect(so) {
            base.push(so_text).push(listed_or_empty(upi_handle(i), views(c.upi_handles@)))
        } else if is_pay(so) {
            if c.psp_app_enabled {
                base.push(so_text).push(listed_or_empty(text_or(i.psp_bank_code, "UNKNOWN"@), views(c.upi_psps@)))
            } else if c.psp_package_enabled {
                base.push(so_text).push(listed_or_empty(upi_package(i), views(c.upi_packages@)))
            } else {
                base.push(so_text)
            }
        } else {
            base.push(text_or(i.source_object, Seq::empty()))
        },
        _ => base.push(text_or(i.payment_method, Seq::empty())),
    }
}

/// A key with the gateway (and, where the merchant asks for it, the account's
/// reference id, `NULL` when there is none) appended.
pub open spec fn with_gateway(key: Seq<char>, i: SrV3KeyInput, c: SrV3KeyConfig) -> Seq<char> {
    if c.gateway_reference_id_enabled {
        join_with(seq![key, text_or(i.gateway_reference_id, "NULL"@), i.gateway@], '_')
    } else {
        join_with(seq![key, i.gateway@], '_')
    }
}

pub open spec fn one_d_key(i: SrV3KeyInput, c: SrV3KeyConfig) -> Seq<char> {
    with_gateway(join_nonempty(one_d_parts(i), '_'), i, c)
}

pub open spec fn three_d_key(i: SrV3KeyInput, c: SrV3KeyConfig) -> Seq<char> {
    with_gateway(join_nonempty(three_d_parts(i, c), '_'), i, c)
}

fn push_view(v: &mut Vec<String>, s: String)
    ensures
        views(final(v)@) == views(old(v)@).push(s@),
{
    v.push(s);
    assert(views(v@) =~= views(old(v)@).push(s@));
}

fn base_parts(i: &SrV3KeyInput) -> (res: Vec<String>)
    ensures
        views(res@) == base_key(*i),
{
    let mut v: Vec<String> = Vec::new();
    assert(views(v@) =~= Seq::<Seq<char>>::empty());
    push_view(&mut v, String::from_str(GATEWAY_SELECTION_V3_ORDER_TYPE_KEY_PREFIX));
    push_view(&mut v, i.merchant_id.clone());
    let ot = match i.txn_object_type {
        Some(t) => txnObjectTypeText(t),
        None => String::new(),
    };
    push_view(&mut v, ot);
    push_view(&mut v, defaultEnumEncodeT(i.payment_method_type.copied()));
    assert(views(v@) =~= base_key(*i));
    v
}

fn source_object(i: &SrV3KeyInput) -> (res: Option<String>)
    ensures
        opt_view(res) == source_object_of(*i),
{
    if opt_is(&i.payment_method, "UPI") {
        clone_opt(&i.source_object)
    } else {
        clone_opt(&i.payment_method)
    }
}

fn listed_or_empty_text(x: String, list: &Vec<String>) -> (res: String)
    ensures
        res@ == listed_or_empty(x@, views(list@)),
{
    if crate::decider::gw_filter::contains_str(list, &x) {
        x
    } else {
        String::new()
    }
}

fn upi_handle_text(i: &SrV3KeyInput) -> (res: String)
    ensures
        res@ == upi_handle(*i),
{
    match &i.payment_source {
        Some(ps) => {
            if ps.as_str().unicode_len() > 0 {
                let pieces = split_on_char(ps.as_str(), '@');
                proof {
                    lemma_split_on_nonempty(ps@, '@');
                    assert(pieces@.map_values(|p: String| p@).len() == pieces@.len());
                }
                let last = pieces.len() - 1;
                assert(pieces@.map_values(|p: String| p@)[last as int] == pieces@[last as int]@);
                uppercase(pieces[last].as_str())
            } else {
                String::new()
            }
        },
        None => String::new(),
    }
}

fn upi_package_text(i: &SrV3KeyInput) -> (res: String)
    ensures
        res@ == upi_package(*i),
{
    match &i.payment_source {
        Some(ps) => {
            if ps.as_str().unicode_len() > 0 {
                uppercase(ps.as_str())
            } else {
                String::new()
            }
        },
        None => String::new(),
    }
}

fn with_gateway_key(key: String, i: &SrV3KeyInput, c: &SrV3KeyConfig) -> (res: String)
    ensures
        res@ == with_gateway(key@, *i, *c),
{
    let mut v: Vec<String> = Vec::new();
    assert(views(v@) =~= Seq::<Seq<char>>::empty());
    push_view(&mut v, key);
    if c.gateway_reference_id_enabled {
        push_view(&mut v, string_or(&i.gateway_reference_id, "NULL"));
    }
    push_view(&mut v, i.gateway.clone());
    assert(views(v@) =~= if c.gateway_reference_id_enabled {
        seq![key@, text_or(i.gateway_reference_id, "NULL"@), i.gateway@]
    } else {
        seq![key@, i.gateway@]
    });
    intercalate('_', &v)
}

/// The one-dimensional v3 key of a transaction: the base dimensions, then for UPI the
/// dimension of [`one_d_upi_dimension`], the card's payment method and type, or the
/// payment method, joined
/// by `_` without empty pieces, then the gateway.
pub fn getKeyForGatewaySelection(i: &SrV3KeyInput, c: &SrV3KeyConfig) -> (res: String)
    ensures
        res@ == one_d_key(*i, *c),
{
    let mut parts = base_parts(i);
    let ghost base = views(parts@);
    match i.payment_method_type {
        PaymentMethodType::UPI => {
            let t = if opt_is(&i.payment_method, "UPI") {
                String::from_str("UPI")
            } else {
                string_or_empty(&i.source_object)
            };
            push_view(&mut parts, t);
        },
        PaymentMethodType::CARD => {
            push_view(&mut parts, string_or_empty(&i.payment_method));
            push_view(&mut parts, string_or_empty(&i.card_type));
            assert(views(parts@) =~= base + card_key(*i));
        },
        _ => {
            push_view(&mut parts, string_or_empty(&i.payment_method));
        },
    }
    assert(views(parts@) == one_d_parts(*i));
    let key = intercalateWithoutEmptyString('_', &parts);
    with_gateway_key(key, i, c)
}

fn three_d_card_parts(i: &SrV3KeyInput, c: &SrV3KeyConfig, parts: &mut Vec<String>)
    requires
        views(old(parts)@) == base_key(*i),
        i.payment_method_type is CARD,
    ensures
        views(final(parts)@) == three_d_parts(*i, *c),
{
    let ghost base = views(parts@);
    push_view(parts, string_or_empty(&i.payment_method));
    push_view(parts, string_or_empty(&i.card_type));
    assert(views(parts@) =~= base + card_key(*i));
    if c.auth_type_enabled {
        push_view(parts, string_or_empty(&i.auth_type));
    } else if c.bank_level_enabled {
        let bank = string_or(&i.card_bank_code, "UNKNOWN");
        push_view(parts, listed_or_empty_text(bank, &c.top_banks));
    }
}

fn three_d_upi_parts(i: &SrV3KeyInput, c: &SrV3KeyConfig, parts: &mut Vec<String>)
    requires
        views(old(parts)@) == base_key(*i),
        i.payment_method_type is UPI,
    ensures
        views(final(parts)@) == three_d_parts(*i, *c),
{
    let so = source_object(i);
    if opt_is(&so, "UPI_COLLECT") || opt_is(&so, "COLLECT") {
        push_view(parts, string_or_empty(&so));
        push_view(parts, listed_or_empty_text(upi_handle_text(i), &c.upi_handles));
    } else if opt_is(&so, "UPI_PAY") || opt_is(&so, "PAY") {
        push_view(parts, string_or_empty(&so));
        if c.psp_app_enabled {
            let code = string_or(&i.psp_bank_code, "UNKNOWN");
            push_view(parts, listed_or_empty_text(code, &c.upi_psps));
        } else if c.psp_package_enabled {
            push_view(parts, listed_or_empty_text(upi_package_text(i), &c.upi_packages));
        }
    } else {
        push_view(parts, string_or_empty(&i.source_object));
    }
}

/// The three-dimensional v3 key of a transaction: for cards the base and card
/// dimensions with the auth type or a listed issuing bank, for UPI the source object
/// with a listed handle, app or package, otherwise as the one-dimensional key; joined
/// by `_` without empty pieces, then the gateway.
pub fn get3DKeyForGatewaySelection(i: &SrV3KeyInput, c: &SrV3KeyConfig) -> (res: String)
    ensures
        res@ == three_d_key(*i, *c),
{
    let mut parts = base_parts(i);
    match i.payment_method_type {
        PaymentMethodType::CARD => three_d_card_parts(i, c, &mut parts),
        PaymentMethodType::UPI => three_d_upi_parts(i, c, &mut parts),
        _ => push_view(&mut parts, string_or_empty(&i.payment_method)),
    }
    let key = intercalateWithoutEmptyString('_', &parts);
    with_gateway_key(key, i, c)
}

/// The key of the moving window of outcomes kept for a score key.
pub fn queueKey(key: &str) -> (res: String)
    ensures
        res@ == key@ + "__queue"@,
{
    cat(key, "__queue")
}

/// The key of the score kept for a score key.
pub fn scoreKey(key: &str) -> (res: String)
    ensures
        res@ == key@ + "__score"@,
{
    cat(key, "__score")
}

/// The key under which a merchant's pending transactions are kept.
pub fn pendingTxnsKey(merchant_id: &str) -> (res: String)
    ensures
        res@ == PENDING_TXNS_KEY_PREFIX@ + merchant_id@,
{
    cat(PENDING_TXNS_KEY_PREFIX, merchant_id)
}

/// The score keys that one outcome updates: the one-dimensional key and, for cards and
/// UPI, the three-dimensional key when it differs; a unified key stands for both.
pub open spec fn sr_v3_update_keys(
    unified: Option<Seq<char>>,
    pmt: PaymentMethodType,
    one_d: Seq<char>,
    three_d: Seq<char>,
) -> Seq<Seq<char>> {
    let k1 = match unified { Some(u) => u, None => one_d };
    let k3 = match unified { Some(u) => u, None => three_d };
    if (pmt is CARD || pmt is UPI) && k3 != k1 {
        seq![k1, k3]
    } else {
        seq![k1]
    }
}

/// Which score keys a transaction's outcome updates.
pub fn srV3UpdateKeys(
    unified_key: &Option<String>,
    payment_method_type: &PaymentMethodType,
    one_d_key: String,
    three_d_key: String,
) -> (res: Vec<String>)
    ensures
        views(res@) == sr_v3_update_keys(opt_view(*unified_key), *payment_method_type, one_d_key@, three_d_key@),
{
    let k1 = match unified_key {
        Some(u) => u.clone(),
        None => one_d_key,
    };
    let mut keys: Vec<String> = Vec::new();
    assert(views(keys@) =~= Seq::<Seq<char>>::empty());
    let card_or_upi = match payment_method_type {
        PaymentMethodType::CARD => true,
        PaymentMethodType::UPI => true,
        _ => false,
    };
    if card_or_upi {
        let k3 = match unified_key {
            Some(u) => u.clone(),
            None => three_d_key,
        };
        let differ = !str_eq(k3.as_str(), k1.as_str());
        push_view(&mut keys, k1);
        if differ {
            push_view(&mut keys, k3);
        }
    } else {
        push_view(&mut keys, k1);
    }
    keys
}

/// The outcome written into the window for a scoring type, and whether a change of
/// the window raises the score: a reward writes `1` and raises it; any penalty writes
/// `0` and lowers it.
pub open spec fn sr_v3_score_value(t: GatewayScoringType) -> (Seq<char>, bool) {
    match t {
        GatewayScoringType::REWARD => ("1"@, true),
        _ => ("0"@, false),
    }
}

pub fn srV3ScoreValue(t: GatewayScoringType) -> (res: (String, bool))
    ensures
        (res.0@, res.1) == sr_v3_score_value(t),
{
    match t {
        GatewayScoringType::PENALISE_SRV3 => (String::from_str("0"), false),
        GatewayScoringType::REWARD => (String::from_str("1"), true),
        _ => (String::from_str("0"), false),
    }
}

/// The status recorded in a popped debug entry, or the popped value itself.
pub fn getStatus(maybe_popped_status_block: Option<SrV3DebugBlock>, popped_status: String) -> (res: String)
    ensures
        res@ == match maybe_popped_status_block {
            Some(b) => b.txn_status@,
            None => popped_status@,
        },
{
    match maybe_popped_status_block {
        Some(b) => b.txn_status,
        None => popped_status,
    }
}

/// How the score moves once an outcome has been pushed and `popped` fell out of the
/// window (`decoded` is that value read as a debug entry, `None` when it is not one):
/// not at all when the outcome that left equals the one that came in, else up for a
/// reward and down for a penalty.
pub open spec fn sr_v3_score_change(
    t: GatewayScoringType,
    decoded: Option<Option<SrV3DebugBlock>>,
    popped: Seq<char>,
) -> Option<bool> {
    let returned = match decoded {
        Some(Some(b)) => b.txn_status@,
        _ => popped,
    };
    if returned == sr_v3_score_value(t).0 {
        None
    } else {
        Some(sr_v3_score_value(t).1)
    }
}

/// Whether and which way the score key moves after the window was updated.
pub fn srV3ScoreChange(
    gateway_scoring_type: GatewayScoringType,
    decoded: Option<Option<SrV3DebugBlock>>,
    popped_status: String,
) -> (res: Option<bool>)
    ensures
        res == sr_v3_score_change(gateway_scoring_type, decoded, popped_status@),
{
    let (value, should_score_increase) = srV3ScoreValue(gateway_scoring_type);
    let returned = match decoded {
        Some(inner) => getStatus(inner, popped_status),
        None => popped_status,
    };
    if str_eq(returned.as_str(), value.as_str()) {
        None
    } else {
        Some(should_score_increase)
    }
}

/// The window and score keys are created unless both exist.
pub fn keysNeedCreation(queue_key_exists: bool, score_key_exists: bool) -> (res: bool)
    ensures
        res == !(queue_key_exists && score_key_exists),
{
    !(queue_key_exists && score_key_exists)
}

/// The window size for a merchant: its own configuration's, else the default
/// configuration's, else [`DEFAULT_SR_V3_BASED_BUCKET_SIZE`].
pub fn getSrV3MerchantBucketSize(merchant_bucket_size: Option<i32>, default_bucket_size: Option<i32>) -> (res: i32)
    ensures
        res == match merchant_bucket_size {
            Some(b) => b,
            None => match default_bucket_size {
                Some(d) => d,
                None => DEFAULT_SR_V3_BASED_BUCKET_SIZE,
            },
        },
{
    match merchant_bucket_size {
        Some(b) => b,
        None => match default_bucket_size {
            Some(d) => d,
            None => DEFAULT_SR_V3_BASED_BUCKET_SIZE,
        },
    }
}

/// A new window: `size` successes.
pub fn initialMovingWindow(size: usize) -> (res: Vec<String>)
    ensures
        res@.len() == size,
        forall|k: int| 0 <= k < size ==> (#[trigger] res@[k])@ == "1"@,
{
    let mut v: Vec<String> = Vec::new();
    let mut i: usize = 0;
    while i < size
        invariant
            i <= size,
            v@.len() == i,
            forall|k: int| 0 <= k < i ==> (#[trigger] v@[k])@ == "1"@,
        decreases size - i,
    {
        v.push(String::from_str("1"));
        i = i + 1;
    }
    v
}

/// Outside cards and UPI the three-dimensional key is the one-dimensional key, so an
/// outcome updates exactly one key.
pub proof fn lemma_single_key_outside_card_and_upi(i: SrV3KeyInput, c: SrV3KeyConfig, unified: Option<Seq<char>>)
    requires
        !(i.payment_method_type is CARD),
        !(i.payment_method_type is UPI),
    ensures
        three_d_key(i, c) == one_d_key(i, c),
        sr_v3_update_keys(unified, i.payment_method_type, one_d_key(i, c), three_d_key(i, c)).len() == 1,
{
    assert(three_d_parts(i, c) == one_d_parts(i));
}

/// A reward never lowers the score and a penalty never raises it; the score stays
/// when the outcome leaving the window is the one that came in.
pub proof fn lemma_score_moves_with_outcome(
    t: GatewayScoringType,
    decoded: Option<Option<SrV3DebugBlock>>,
    popped: Seq<char>,
)
    ensures
        t == GatewayScoringType::REWARD ==> sr_v3_score_change(t, decoded, popped) != Some(false),
        t != GatewayScoringType::REWARD ==> sr_v3_score_change(t, decoded, popped) != Some(true),
        (decoded is None && popped == sr_v3_score_value(t).0) ==> sr_v3_score_change(t, decoded, popped) is None,
{
}

/// How many outcomes of a window are successes (`1`).
pub open spec fn count_successes(outcomes: Seq<Seq<char>>) -> nat
    decreases outcomes.len(),
{
    if outcomes.len() == 0 {
        0
    } else {
        count_successes(outcomes.drop_last()) + if outcomes.last() == "1"@ { 1nat } else { 0nat }
    }
}

/// An outcome is a success (`1`) or a failure (`0`).
pub open spec fn is_outcome(t: Seq<char>) -> bool {
    t == "1"@ || t == "0"@
}

proof fn lemma_count_successes_first(s: Seq<Seq<char>>)
    requires
        s.len() > 0,
    ensures
        count_successes(s) == count_successes(s.drop_first()) + if s[0] == "1"@ { 1nat } else { 0nat },
    decreases s.len(),
{
    if s.len() > 1 {
        lemma_count_successes_first(s.drop_last());
        assert(s.drop_last().drop_first() =~= s.drop_first().drop_last());
    } else {
        assert(s.drop_first() =~= Seq::<Seq<char>>::empty());
        assert(s.drop_last() =~= Seq::<Seq<char>>::empty());
    }
}

proof fn lemma_count_successes_le_len(s: Seq<Seq<char>>)
    ensures
        count_successes(s) <= s.len(),
    decreases s.len(),
{
    if s.len() > 0 {
        lemma_count_successes_le_len(s.drop_last());
    }
}

/// The moving window of a v3 score key: the latest outcomes, oldest first, and the
/// score kept beside them, which always counts the successes in the window.
pub struct SrV3Window {
    outcomes: Vec<String>,
    score: u64,
}

impl SrV3Window {
    #[verifier::type_invariant]
    spec fn well_formed(self) -> bool {
        &&& forall|i: int| 0 <= i < self.outcomes@.len() ==> is_outcome(#[trigger] self.outcomes@[i]@)
        &&& self.score == count_successes(views(self.outcomes@))
    }

    /// The outcomes in the window, oldest first.
    pub closed spec fn outcome_texts(self) -> Seq<Seq<char>> {
        views(self.outcomes@)
    }

    /// The score kept beside the window.
    pub closed spec fn score_value(self) -> int {
        self.score as int
    }

    /// A new window of `size` successes, with its score, as the keys are created.
    pub fn new(size: usize) -> (w: SrV3Window)
        ensures
            w.outcome_texts().len() == size,
            forall|k: int| 0 <= k < size ==> #[trigger] w.outcome_texts()[k] == "1"@,
            w.score_value() == size,
            w.score_value() == count_successes(w.outcome_texts()),
    {
        let outcomes = initialMovingWindow(size);
        proof {
            reveal_strlit("1");
            reveal_strlit("0");
            assert forall|n: int| 0 <= n <= size implies count_successes(views(outcomes@).take(n)) == n by {
                lemma_count_take(views(outcomes@), n);
            }
            assert(views(outcomes@).take(size as int) =~= views(outcomes@));
        }
        SrV3Window { outcomes, score: size as u64 }
    }

    /// The outcomes in the window, oldest first.
    pub fn outcomes(&self) -> (r: &Vec<String>)
        ensures
            views(r@) == self.outcome_texts(),
    {
        &self.outcomes
    }

    /// The score, which counts the successes in the window.
    pub fn score(&self) -> (r: u64)
        ensures
            r == self.score_value(),
            r == count_successes(self.outcome_texts()),
    {
        proof { use_type_invariant(self); }
        self.score
    }
}

proof fn lemma_count_take(s: Seq<Seq<char>>, n: int)
    requires
        0 <= n <= s.len(),
        forall|k: int| 0 <= k < s.len() ==> #[trigger] s[k] == "1"@,
    ensures
        count_successes(s.take(n)) == n,
    decreases n,
{
    if n > 0 {
        lemma_count_take(s, n - 1);
        assert(s.take(n).drop_last() =~= s.take(n - 1));
    }
}

/// The score change for an outcome entering a window from which `popped` leaves.
pub open spec fn window_score_delta(t: GatewayScoringType, popped: Seq<char>) -> int {
    match sr_v3_score_change(t, None, popped) {
        None => 0,
        Some(true) => 1,
        Some(false) => -1,
    }
}

/// Records a transaction's outcome in a window: the outcome for `gateway_scoring_type`
/// enters at the end, the oldest outcome leaves and is returned, and the score moves
/// when the two differ (up for a reward, down for a penalty). The window keeps its
/// length and its score keeps counting its successes. An empty window gives back the
/// outcome that entered it and stays empty, its score unchanged.
pub fn updateScoreAndQueue(window: &mut SrV3Window, gateway_scoring_type: GatewayScoringType) -> (popped: String)
    ensures
        popped@ == old(window).outcome_texts().push(sr_v3_score_value(gateway_scoring_type).0)[0],
        final(window).outcome_texts()
            == old(window).outcome_texts().push(sr_v3_score_value(gateway_scoring_type).0).drop_first(),
        final(window).score_value() == old(window).score_value() + window_score_delta(gateway_scoring_type, popped@),
        final(window).score_value() == count_successes(final(window).outcome_texts()),
{
    proof { use_type_invariant(&*window); }
    let (value, _) = srV3ScoreValue(gateway_scoring_type);
    if window.outcomes.len() == 0 {
        proof {
            reveal_strlit("1");
            reveal_strlit("0");
            assert(old(window).outcome_texts().push(value@).drop_first() =~= old(window).outcome_texts());
        }
        return value;
    }
    proof {
        assert(old(window).outcome_texts().push(value@)[0] == old(window).outcome_texts()[0]);
        assert(old(window).outcome_texts().push(value@).drop_first()
            =~= old(window).outcome_texts().drop_first().push(value@));
    }
    let ghost old_texts = views(window.outcomes@);
    let n = window.outcomes.len();
    let mut next: Vec<String> = Vec::new();
    assert(views(next@) =~= Seq::<Seq<char>>::empty());
    let mut i: usize = 1;
    while i < n
        invariant
            1 <= i <= n,
            n == window.outcomes@.len(),
            old_texts == views(window.outcomes@),
            views(next@) == old_texts.subrange(1, i as int),
        decreases n - i,
    {
        let c = window.outcomes[i].clone();
        let ghost prev = views(next@);
        next.push(c);
        assert(views(next@) =~= prev.push(old_texts[i as int]));
        assert(old_texts.subrange(1, i + 1) =~= old_texts.subrange(1, i as int).push(old_texts[i as int]));
        i = i + 1;
    }
    let popped = window.outcomes[0].clone();
    proof {
        reveal_strlit("1");
        reveal_strlit("0");
        lemma_count_successes_first(old_texts);
        lemma_count_successes_le_len(old_texts.drop_first());
        assert(is_outcome(window.outcomes@[0]@));
        assert(popped@ == old_texts[0]);
    }
    let new_score: u64 = if str_eq(popped.as_str(), value.as_str()) {
        window.score
    } else if str_eq(value.as_str(), "1") {
        window.score + 1
    } else {
        window.score - 1
    };
    let ghost before_push = views(next@);
    next.push(value);
    proof {
        reveal_strlit("1");
        reveal_strlit("0");
        assert(before_push =~= old_texts.drop_first());
        assert(views(next@) =~= old_texts.drop_first().push(sr_v3_score_value(gateway_scoring_type).0));
        assert(views(next@).drop_last() =~= old_texts.drop_first());
        lemma_count_successes_first(old_texts);
        lemma_count_successes_le_len(old_texts.drop_first());
        assert(is_outcome(old_texts[0]));
        assert forall|k: int| 0 <= k < next@.len() implies is_outcome(#[trigger] next@[k]@) by {
            assert(next@[k]@ == views(next@)[k]);
            if k < n - 1 {
                assert(views(next@)[k] == old_texts[k + 1]);
                assert(is_outcome(window.outcomes@[k + 1]@));
            }
        }
    }
    *window = SrV3Window { outcomes: next, score: new_score };
    popped
}

/// For a UPI transaction whose chosen source object names neither a collect nor a pay
/// flow, the three-dimensional key ends with the transaction's own source object (empty
/// when there is none), right after the common dimensions.
pub proof fn lemma_upi_other_flow_ends_with_source_object(i: SrV3KeyInput, c: SrV3KeyConfig)
    requires
        i.payment_method_type is UPI,
        !is_collect(source_object_of(i)),
        !is_pay(source_object_of(i)),
    ensures
        three_d_parts(i, c) == base_key(i).push(text_or(i.source_object, Seq::empty())),
        three_d_parts(i, c).last() == text_or(i.source_object, Seq::empty()),
{
}

/// A UPI transaction whose payment method is neither `UPI` nor a collect or pay word
/// has one key for both dimensions: its three-dimensional key is its one-dimensional
/// key, both ending with its own source object.
pub proof fn lemma_upi_plain_method_three_d_is_one_d(i: SrV3KeyInput, c: SrV3KeyConfig)
    requires
        i.payment_method_type is UPI,
        opt_view(i.payment_method) != Some("UPI"@),
        opt_view(i.payment_method) != Some("UPI_COLLECT"@),
        opt_view(i.payment_method) != Some("COLLECT"@),
        opt_view(i.payment_method) != Some("UPI_PAY"@),
        opt_view(i.payment_method) != Some("PAY"@),
    ensures
        three_d_parts(i, c) == one_d_parts(i),
        three_d_key(i, c) == one_d_key(i, c),
        one_d_parts(i).last() == text_or(i.source_object, Seq::empty()),
{
}

/// A UPI collect or pay transaction keys its flow first: the dimension after the common
/// ones is the chosen source object (the transaction's own when the payment method is
/// `UPI`, else the payment method).
pub proof fn lemma_upi_flow_dimension(i: SrV3KeyInput, c: SrV3KeyConfig)
    requires
        i.payment_method_type is UPI,
        is_collect(source_object_of(i)) || is_pay(source_object_of(i)),
    ensures
        three_d_parts(i, c).len() >= 5,
        three_d_parts(i, c).subrange(0, 4) == base_key(i),
        Some(three_d_parts(i, c)[4]) == (if opt_view(i.payment_method) == Some("UPI"@) {
            opt_view(i.source_object)
        } else {
            opt_view(i.payment_method)
        }),
{
    assert(three_d_parts(i, c).subrange(0, 4) =~= base_key(i));
}

/// A card's three-dimensional key extends its one-dimensional key by at most one
/// dimension: the authentication type when auth-type keys are on; else, when bank-level
/// keys are on, the issuing bank (`UNKNOWN` when none) if it is a top bank, else the
/// empty text; and nothing otherwise.
pub proof fn lemma_card_three_d_extends_one_d(i: SrV3KeyInput, c: SrV3KeyConfig)
    requires
        i.payment_method_type is CARD,
    ensures
        c.auth_type_enabled ==> three_d_parts(i, c) == one_d_parts(i).push(text_or(i.auth_type, Seq::empty())),
        !c.auth_type_enabled && c.bank_level_enabled ==> {
            let bank = text_or(i.card_bank_code, "UNKNOWN"@);
            &&& three_d_parts(i, c).drop_last() == one_d_parts(i)
            &&& views(c.top_banks@).contains(bank) ==> three_d_parts(i, c).last() == bank
            &&& !views(c.top_banks@).contains(bank) ==> three_d_parts(i, c).last() == Seq::<char>::empty()
        },
        !c.auth_type_enabled && !c.bank_level_enabled ==> three_d_parts(i, c) == one_d_parts(i),
{
    if !c.auth_type_enabled && c.bank_level_enabled {
        assert(three_d_parts(i, c).drop_last() =~= one_d_parts(i));
    }
}

/// The dimension a UPI collect or pay key adds after its flow: for a collect request
/// the payee handle when it is a listed handle (else empty); for a pay request the PSP
/// bank (`UNKNOWN` when none) when PSP-app keys are on, else the app package when
/// package keys are on, each when listed (else empty); a pay request with neither has
/// no such dimension.
pub proof fn lemma_upi_second_dimension(i: SrV3KeyInput, c: SrV3KeyConfig)
    requires
        i.payment_method_type is UPI,
    ensures
        is_collect(source_object_of(i)) ==> three_d_parts(i, c).len() == 6 && three_d_parts(i, c)[5]
            == (if views(c.upi_handles@).contains(upi_handle(i)) { upi_handle(i) } else { Seq::empty() }),
        is_pay(source_object_of(i)) && c.psp_app_enabled ==> three_d_parts(i, c).len() == 6 && three_d_parts(i, c)[5]
            == (if views(c.upi_psps@).contains(text_or(i.psp_bank_code, "UNKNOWN"@)) {
                text_or(i.psp_bank_code, "UNKNOWN"@)
            } else {
                Seq::empty()
            }),
        is_pay(source_object_of(i)) && !c.psp_app_enabled && c.psp_package_enabled ==> three_d_parts(i, c).len() == 6
            && three_d_parts(i, c)[5]
            == (if views(c.upi_packages@).contains(upi_package(i)) { upi_package(i) } else { Seq::empty() }),
        is_pay(source_object_of(i)) && !c.psp_app_enabled && !c.psp_package_enabled ==> three_d_parts(i, c).len() == 5,
{
    reveal_strlit("UPI_COLLECT");
    reveal_strlit("COLLECT");
    reveal_strlit("UPI_PAY");
    reveal_strlit("PAY");
    assert("UPI_PAY"@.len() == 7 && "UPI_COLLECT"@.len() == 11 && "PAY"@.len() == 3 && "COLLECT"@.len() == 7);
    assert("UPI_PAY"@[0] != "COLLECT"@[0]);
    assert("UPI_PAY"@ != "COLLECT"@);
    if is_pay(source_object_of(i)) {
        assert(!is_collect(source_object_of(i)));
    }
}

/// A UPI one-dimensional key has one dimension after the common ones: `UPI` when the
/// payment method reads `UPI`, else the transaction's own source object (empty when
/// there is none), whatever the payment method is.
pub proof fn lemma_upi_one_d_dimension(i: SrV3KeyInput)
    requires
        i.payment_method_type is UPI,
    ensures
        one_d_parts(i).drop_last() == base_key(i),
        opt_view(i.payment_method) == Some("UPI"@) ==> one_d_parts(i).last() == "UPI"@,
        opt_view(i.payment_method) != Some("UPI"@) ==> one_d_parts(i).last() == text_or(i.source_object, Seq::empty()),
{
    assert(one_d_parts(i).drop_last() =~= base_key(i));
}

} // verus!
