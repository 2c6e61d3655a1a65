//! What the decider asks of its stores: EMI support queries and gateway accounts.
use vstd::prelude::*;
use crate::storage::types::MerchantGatewayAccount;
use crate::text::str_eq;

verus! {

/// `suffix` ends `s`.
pub open spec fn ends_with(s: Seq<char>, suffix: Seq<char>) -> bool {
    suffix.len() <= s.len() && s.subrange(s.len() - suffix.len(), s.len() as int) == suffix
}

/// Whether `str` ends with `suffix`, as `str::ends_with` with a string pattern.
pub fn is_suffix_of(suffix: &str, str: &str) -> (res: bool)
    ensures
        res == ends_with(str@, suffix@),
{
    let ns = suffix.unicode_len();
    let n = str.unicode_len();
    if ns > n {
        return false;
    }
    let tail = str.substring_char(n - ns, n);
    str_eq(tail, suffix)
}

/// The bank name with one EMI marker taken off its end: `_CLEMI`, else `_CC`, else `DC`.
pub open spec fn trim_suffix(s: Seq<char>) -> Seq<char> {
    if ends_with(s, "_CLEMI"@) {
        s.subrange(0, s.len() - "_CLEMI"@.len())
    } else if ends_with(s, "_CC"@) {
        s.subrange(0, s.len() - "_CC"@.len())
    } else if ends_with(s, "DC"@) {
        s.subrange(0, s.len() - "DC"@.len())
    } else {
        s
    }
}

fn drop_last_chars(s: &str, k: usize) -> (res: String)
    requires
        k <= s@.len(),
    ensures
        res@ == s@.subrange(0, s@.len() - k),
{
    let n = s.unicode_len();
    String::from_str(s.substring_char(0, n - k))
}

/// The bank name that EMI bank codes are stored under.
pub fn trimSuffix(str: &str) -> (res: String)
    ensures
        res@ == trim_suffix(str@),
{
    if is_suffix_of("_CLEMI", str) {
        let k = "_CLEMI".unicode_len();
        drop_last_chars(str, k)
    } else if is_suffix_of("_CC", str) {
        let k = "_CC".unicode_len();
        drop_last_chars(str, k)
    } else if is_suffix_of("DC", str) {
        let k = "DC".unicode_len();
        drop_last_chars(str, k)
    } else {
        String::from_str(str)
    }
}

/// The query for a bank's EMI support on some gateways: none without a bank or
/// gateways; cardless EMI is looked up as card EMI.
pub open spec fn emi_support_query(
    emi_bank: Option<Seq<char>>,
    gateway_count: int,
    scope: Seq<char>,
) -> Option<(Seq<char>, Seq<char>)> {
    match emi_bank {
        None => None,
        Some(b) => if gateway_count == 0 {
            None
        } else if scope == "CARDLESS"@ {
            Some((b, "CARD"@))
        } else {
            Some((b, scope))
        },
    }
}

/// The bank and scope to look EMI support up with, if any: none without an EMI bank
/// or without gateways, and a cardless scope looked up as a card one.
pub fn gatewayBankEmiSupportQuery(
    emi_bank: &Option<String>,
    gws: &Vec<String>,
    scope: &str,
) -> (res: Option<(String, String)>)
    ensures
        match res {
            Some((b, s)) => emi_support_query(
                match emi_bank { Some(e) => Some(e@), None => None::<Seq<char>> },
                gws@.len() as int,
                scope@,
            ) == Some((b@, s@)),
            None => emi_support_query(
                match emi_bank { Some(e) => Some(e@), None => None::<Seq<char>> },
                gws@.len() as int,
                scope@,
            ) is None,
        },
{
    match emi_bank {
        None => None,
        Some(b) => {
            if gws.len() == 0 {
                None
            } else if str_eq(scope, "CARDLESS") {
                Some((b.clone(), String::from_str("CARD")))
            } else {
                Some((b.clone(), String::from_str(scope)))
            }
        },
    }
}

/// The bank name whose EMI bank codes are needed: only with both a bank and a tenure.
pub fn emiBankCodeLookupName(emi_bank: &Option<String>, tenure: Option<i32>) -> (res: Option<String>)
    ensures
        match res {
            Some(n) => emi_bank is Some && tenure is Some && n@ == trim_suffix(emi_bank->0@),
            None => emi_bank is None || tenure is None,
        },
{
    match (emi_bank, tenure) {
        (Some(b), Some(_)) => Some(trimSuffix(b.as_str())),
        _ => None,
    }
}

/// The card type an EMI bank code is looked up with: consumer finance for cardless
/// EMI, else debit for a bank named with `DC` at its end and credit otherwise.
pub open spec fn emi_card_type(emi_bank: Seq<char>, scope: Seq<char>) -> Seq<char> {
    if scope == "CARDLESS"@ {
        "CONSUMER_FINANCE"@
    } else if ends_with(emi_bank, "DC"@) {
        "DEBIT"@
    } else {
        "CREDIT"@
    }
}

/// The bank code id and card type for an EMI support lookup, made once the bank codes
/// of the EMI bank are known: only when exactly one bank code was found.
pub fn gatewayBankEmiSupportV2Query(
    emi_bank: &str,
    scope: &str,
    bank_code_ids: &Vec<i64>,
) -> (res: Option<(i64, String)>)
    ensures
        match res {
            Some((id, card_type)) => bank_code_ids@.len() == 1 && id == bank_code_ids@[0]
                && card_type@ == emi_card_type(emi_bank@, scope@),
            None => bank_code_ids@.len() != 1,
        },
{
    if bank_code_ids.len() != 1 {
        return None;
    }
    let id = bank_code_ids[0];
    if str_eq(scope, "CARDLESS") {
        Some((id, String::from_str("CONSUMER_FINANCE")))
    } else if is_suffix_of("DC", emi_bank) {
        Some((id, String::from_str("DEBIT")))
    } else {
        Some((id, String::from_str("CREDIT")))
    }
}

/// The accounts that are not on the `MORPHEUS` gateway.
pub open spec fn not_morpheus() -> spec_fn(MerchantGatewayAccount) -> bool {
    |m: MerchantGatewayAccount| m.gateway@ != "MORPHEUS"@
}

/// Drops the accounts on the `MORPHEUS` gateway, keeping the others in order.
pub fn filter_morpheus(mgas: Vec<MerchantGatewayAccount>) -> (res: Vec<MerchantGatewayAccount>)
    ensures
        res@ == mgas@.filter(not_morpheus()),
{
    let mut kept: Vec<MerchantGatewayAccount> = Vec::new();
    let mut rest = mgas;
    let ghost orig = rest@;
    let ghost mut k: int = 0;
    assert(orig.take(0).filter(not_morpheus()) =~= Seq::<MerchantGatewayAccount>::empty()) by {
        reveal(Seq::filter);
    }
    assert(orig.skip(0) =~= orig);
    while rest.len() > 0
        invariant
            0 <= k <= orig.len(),
            rest@ == orig.skip(k),
            kept@ == orig.take(k).filter(not_morpheus()),
        decreases rest.len(),
    {
        let mga = rest.remove(0);
        proof {
            assert(mga == orig[k]);
            assert(orig.take(k + 1) =~= orig.take(k).push(mga));
            orig.take(k).lemma_filter_push(mga, not_morpheus());
        }
        if !str_eq(mga.gateway.as_str(), "MORPHEUS") {
            kept.push(mga);
        }
        proof {
            assert(rest@ =~= orig.skip(k + 1));
            k = k + 1;
        }
    }
    assert(orig.take(k) =~= orig);
    kept
}

/// There is exactly one account, and it is on the `PAYLATER` gateway.
pub fn is_only_one_paylater(mgas: Vec<MerchantGatewayAccount>) -> (res: bool)
    ensures
        res == (mgas@.len() == 1 && mgas@[0].gateway@ == "PAYLATER"@),
{
    if mgas.len() == 1 {
        str_eq(mgas[0].gateway.as_str(), "PAYLATER")
    } else {
        false
    }
}

/// No account on the `MORPHEUS` gateway is left, and every other account is.
pub proof fn lemma_filter_morpheus(mgas: Seq<MerchantGatewayAccount>)
    ensures
        forall|i: int| 0 <= i < mgas.filter(not_morpheus()).len()
            ==> (#[trigger] mgas.filter(not_morpheus())[i]).gateway@ != "MORPHEUS"@,
        forall|i: int| 0 <= i < mgas.len() && mgas[i].gateway@ != "MORPHEUS"@
            ==> mgas.filter(not_morpheus()).contains(#[trigger] mgas[i]),
{
    assert forall|i: int| 0 <= i < mgas.filter(not_morpheus()).len()
        implies (#[trigger] mgas.filter(not_morpheus())[i]).gateway@ != "MORPHEUS"@ by {
        mgas.lemma_filter_pred(not_morpheus(), i);
    }
    assert forall|i: int| 0 <= i < mgas.len() && mgas[i].gateway@ != "MORPHEUS"@
        implies mgas.filter(not_morpheus()).contains(#[trigger] mgas[i]) by {
        mgas.lemma_filter_contains(not_morpheus(), i);
    }
}

} // verus!
