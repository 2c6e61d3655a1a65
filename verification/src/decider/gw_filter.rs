//! Gateway list bookkeeping of the eligibility filters.
use vstd::prelude::*;
use crate::text::{lex_lt, lex_less, lemma_lex_lt_total, lemma_lex_lt_transitive, char_to_lowercase, lowercase_char};
use crate::storage::types::MerchantGatewayAccount;

verus! {

/// The text of each string of a list.
pub open spec fn views(v: Seq<String>) -> Seq<Seq<char>> {
    v.map_values(|s: String| s@)
}

/// Every element is below every later one in `String`'s order: the list is sorted
/// and holds nothing twice.
pub open spec fn strictly_sorted(s: Seq<Seq<char>>) -> bool {
    forall|i: int, j: int| 0 <= i < j < s.len() ==> lex_lt(#[trigger] s[i], #[trigger] s[j])
}

/// Sorts a gateway list and drops repetitions, as `sort` followed by `dedup` does.
pub fn ord_nub(v: Vec<String>) -> (res: Vec<String>)
    ensures
        strictly_sorted(views(res@)),
        forall|x: Seq<char>| views(res@).contains(x) <==> views(v@).contains(x),
{
    let mut res: Vec<String> = Vec::new();
    let mut i: usize = 0;
    while i < v.len()
        invariant
            i <= v.len(),
            strictly_sorted(views(res@)),
            forall|x: Seq<char>| views(res@).contains(x) <==> views(v@.take(i as int)).contains(x),
        decreases v.len() - i,
    {
        let x = v[i].clone();
        let ghost rv = views(res@);
        let mut k: usize = 0;
        while k < res.len() && lex_less(res[k].as_str(), x.as_str())
            invariant
                k <= res.len(),
                rv == views(res@),
                forall|m: int| 0 <= m < k ==> lex_lt(#[trigger] rv[m], x@),
            decreases res.len() - k,
        {
            k = k + 1;
        }
        assert(v@.take(i + 1) =~= v@.take(i as int).push(v@[i as int]));
        let ghost pre = views(v@.take(i as int));
        let ghost post = views(v@.take(i + 1));
        assert(post =~= pre.push(x@));
        if k < res.len() && res[k] == x {
            assert(rv[k as int] == x@);
            assert forall|y: Seq<char>| views(res@).contains(y) <==> post.contains(y) by {
                if y == x@ {
                    assert(views(res@)[k as int] == y);
                    assert(post[i as int] == y);
                } else {
                    if post.contains(y) {
                        let j = choose|j: int| 0 <= j < post.len() && #[trigger] post[j] == y;
                        assert(pre[j] == y);
                    }
                    if views(res@).contains(y) {
                        assert(pre.contains(y));
                        let jj = choose|jj: int| 0 <= jj < pre.len() && #[trigger] pre[jj] == y;
                        assert(post[jj] == y);
                    }
                }
            }
        } else {
            proof {
                if k < res.len() {
                    lemma_lex_lt_total(rv[k as int], x@);
                    assert(lex_lt(x@, rv[k as int]));
                    assert forall|j: int| k <= j < rv.len() implies lex_lt(x@, #[trigger] rv[j]) by {
                        if j > k {
                            lemma_lex_lt_transitive(x@, rv[k as int], rv[j]);
                        }
                    }
                }
            }
            res.insert(k, x);
            let ghost nv = views(res@);
            assert(nv =~= rv.insert(k as int, x@));
            assert forall|a: int, b: int| 0 <= a < b < nv.len() implies lex_lt(#[trigger] nv[a], #[trigger] nv[b]) by {
                if b < k {
                    assert(nv[a] == rv[a] && nv[b] == rv[b]);
                } else if b == k {
                    assert(nv[a] == rv[a]);
                } else if a < k {
                    assert(nv[a] == rv[a] && nv[b] == rv[b - 1]);
                    lemma_lex_lt_transitive(rv[a], x@, rv[b - 1]);
                } else if a == k {
                    assert(nv[b] == rv[b - 1]);
                } else {
                    assert(nv[a] == rv[a - 1] && nv[b] == rv[b - 1]);
                }
            }
            assert forall|y: Seq<char>| nv.contains(y) <==> post.contains(y) by {
                if y == x@ {
                    assert(nv[k as int] == y);
                    assert(post[i as int] == y);
                } else {
                    if nv.contains(y) {
                        let j = choose|j: int| 0 <= j < nv.len() && #[trigger] nv[j] == y;
                        if j < k {
                            assert(rv[j] == y);
                        } else {
                            assert(rv[j - 1] == y);
                        }
                        assert(rv.contains(y));
                        let jj = choose|jj: int| 0 <= jj < pre.len() && #[trigger] pre[jj] == y;
                        assert(post[jj] == y);
                    }
                    if post.contains(y) {
                        let j = choose|j: int| 0 <= j < post.len() && #[trigger] post[j] == y;
                        assert(pre[j] == y);
                        assert(rv.contains(y));
                        let jj = choose|jj: int| 0 <= jj < rv.len() && #[trigger] rv[jj] == y;
                        if jj < k {
                            assert(nv[jj] == y);
                        } else {
                            assert(nv[jj + 1] == y);
                        }
                    }
                }
            }
        }
        i = i + 1;
    }
    assert(v@.take(v.len() as int) =~= v@);
    res
}


/// The part of the decider's state that the eligibility filters narrow down:
/// the gateways still in the running and the merchant's gateway accounts.
pub struct FunctionalGatewayState {
    pub functionalGateways: Vec<String>,
    pub mgas: Option<Vec<MerchantGatewayAccount>>,
}

/// The gateway of each account.
pub open spec fn gateway_names(mgas: Seq<MerchantGatewayAccount>) -> Seq<Seq<char>> {
    mgas.map_values(|m: MerchantGatewayAccount| m.gateway@)
}

/// Whether the account's gateway is one of `gws`.
pub open spec fn account_on(gws: Seq<Seq<char>>) -> spec_fn(MerchantGatewayAccount) -> bool {
    |m: MerchantGatewayAccount| gws.contains(m.gateway@)
}

/// Whether `s` is one of the strings of `v`.
pub fn contains_str(v: &Vec<String>, s: &String) -> (res: bool)
    ensures
        res == views(v@).contains(s@),
{
    let mut i: usize = 0;
    while i < v.len()
        invariant
            i <= v.len(),
            forall|j: int| 0 <= j < i ==> views(v@)[j] != s@,
        decreases v.len() - i,
    {
        if v[i] == *s {
            assert(views(v@)[i as int] == s@);
            return true;
        }
        i = i + 1;
    }
    false
}

/// Records the accounts that passed a filter and makes their gateways, sorted and
/// without repetition, the functional gateways.
pub fn setGwsAndMgas_rs(this: &mut FunctionalGatewayState, filteredMgas: Vec<MerchantGatewayAccount>)
    ensures
        final(this).mgas == Some(filteredMgas),
        strictly_sorted(views(final(this).functionalGateways@)),
        forall|x: Seq<char>|
            views(final(this).functionalGateways@).contains(x) <==> gateway_names(filteredMgas@).contains(x),
{
    let mut gws: Vec<String> = Vec::new();
    let mut i: usize = 0;
    while i < filteredMgas.len()
        invariant
            i <= filteredMgas.len(),
            views(gws@) == gateway_names(filteredMgas@.take(i as int)),
        decreases filteredMgas.len() - i,
    {
        let g = filteredMgas[i].gateway.clone();
        assert(g@ == filteredMgas@[i as int].gateway@);
        let ghost prev = gws@;
        gws.push(g);
        assert(views(gws@) =~= views(prev).push(g@));
        assert(filteredMgas@.take(i + 1) =~= filteredMgas@.take(i as int).push(filteredMgas@[i as int]));
        assert(gateway_names(filteredMgas@.take(i + 1)) =~= gateway_names(filteredMgas@.take(i as int)).push(g@));
        i = i + 1;
    }
    assert(filteredMgas@.take(filteredMgas.len() as int) =~= filteredMgas@);
    this.functionalGateways = ord_nub(gws);
    this.mgas = Some(filteredMgas);
}

/// Makes `gws` the functional gateways and keeps, of the recorded accounts, those
/// whose gateway is among them.
pub fn setGws_rs(this: &mut FunctionalGatewayState, gws: Vec<String>)
    ensures
        final(this).functionalGateways == gws,
        old(this).mgas is None ==> final(this).mgas is None,
        old(this).mgas matches Some(m) ==> (final(this).mgas matches Some(n)
            && n@ == m@.filter(account_on(views(gws@)))),
{
    let m_mgas = this.mgas.take();
    match m_mgas {
        None => {},
        Some(mgas) => {
            let ghost orig = mgas@;
            let mut rest = mgas;
            let mut kept: Vec<MerchantGatewayAccount> = Vec::new();
            let ghost mut k: int = 0;
            while rest.len() > 0
                invariant
                    0 <= k <= orig.len(),
                    rest@ == orig.skip(k),
                    kept@ == orig.take(k).filter(account_on(views(gws@))),
                decreases rest.len(),
            {
                let mga = rest.remove(0);
                proof {
                    assert(mga == orig[k]);
                    assert(orig.take(k + 1) =~= orig.take(k).push(mga));
                    orig.take(k).lemma_filter_push(mga, account_on(views(gws@)));
                }
                if contains_str(&gws, &mga.gateway) {
                    kept.push(mga);
                }
                proof {
                    assert(rest@ =~= orig.skip(k + 1));
                    k = k + 1;
                }
            }
            assert(orig.take(k) =~= orig);
            this.mgas = Some(kept);
        },
    }
    this.functionalGateways = gws;
}


/// The name with its first character in lowercase; an empty name stays empty.
pub fn makeFirstLetterSmall(s: String) -> (res: String)
    ensures
        s@.len() == 0 ==> res@ == s@,
        s@.len() > 0 ==> res@ == char_to_lowercase(s@[0]) + s@.drop_first(),
{
    let n = s.as_str().unicode_len();
    if n == 0 {
        return s;
    }
    let first = lowercase_char(s.as_str().get_char(0));
    let rest = s.as_str().substring_char(1, n);
    assert(rest@ =~= s@.drop_first());
    first.concat(rest)
}

/// Two lists that are both strictly sorted and hold the same gateways are the same
/// list: what `ord_nub` returns depends only on which gateways it is given, so it gives
/// the same list for any order or repetition of them, and applying it twice changes
/// nothing.
pub proof fn lemma_strictly_sorted_same_elements_equal(a: Seq<Seq<char>>, b: Seq<Seq<char>>)
    requires
        strictly_sorted(a),
        strictly_sorted(b),
        forall|x: Seq<char>| a.contains(x) <==> b.contains(x),
    ensures
        a == b,
    decreases a.len() + b.len(),
{
    if a.len() == 0 {
        if b.len() > 0 {
            assert(b.contains(b[0]));
        }
        assert(a =~= b);
    } else if b.len() == 0 {
        assert(a.contains(a[0]));
    } else {
        assert(a.contains(a[0]));
        assert(b.contains(b[0]));
        if a[0] != b[0] {
            let j = choose|j: int| 0 <= j < b.len() && b[j] == a[0];
            let k = choose|k: int| 0 <= k < a.len() && a[k] == b[0];
            assert(j != 0);
            assert(k != 0);
            assert(lex_lt(b[0], b[j]));
            assert(lex_lt(a[0], a[k]));
            crate::text::lemma_lex_lt_asymmetric(a[0], b[0]);
        }
        let a1 = a.drop_first();
        let b1 = b.drop_first();
        assert forall|i: int, j: int| 0 <= i < j < a1.len() implies lex_lt(#[trigger] a1[i], #[trigger] a1[j]) by {
            assert(a1[i] == a[i + 1] && a1[j] == a[j + 1]);
        }
        assert forall|i: int, j: int| 0 <= i < j < b1.len() implies lex_lt(#[trigger] b1[i], #[trigger] b1[j]) by {
            assert(b1[i] == b[i + 1] && b1[j] == b[j + 1]);
        }
        assert forall|x: Seq<char>| a1.contains(x) <==> b1.contains(x) by {
            if a1.contains(x) {
                let i = choose|i: int| 0 <= i < a1.len() && a1[i] == x;
                assert(a.contains(x) && a[i + 1] == x);
                assert(lex_lt(a[0], x));
                crate::text::lemma_lex_lt_irreflexive(x);
                assert(x != b[0]);
                let j = choose|j: int| 0 <= j < b.len() && b[j] == x;
                assert(j != 0);
                assert(b1[j - 1] == x);
            }
            if b1.contains(x) {
                let i = choose|i: int| 0 <= i < b1.len() && b1[i] == x;
                assert(b.contains(x) && b[i + 1] == x);
                assert(lex_lt(b[0], x));
                crate::text::lemma_lex_lt_irreflexive(x);
                assert(x != a[0]);
                let j = choose|j: int| 0 <= j < a.len() && a[j] == x;
                assert(j != 0);
                assert(a1[j - 1] == x);
            }
        }
        lemma_strictly_sorted_same_elements_equal(a1, b1);
        assert(a =~= seq![a[0]] + a1);
        assert(b =~= seq![b[0]] + b1);
    }
}

/// Every account recorded after the functional gateways were set is on one of them.
pub proof fn lemma_recorded_accounts_on_functional_gateways(mgas: Seq<MerchantGatewayAccount>, gws: Seq<Seq<char>>)
    ensures
        forall|i: int| 0 <= i < mgas.filter(account_on(gws)).len()
            ==> gws.contains((#[trigger] mgas.filter(account_on(gws))[i]).gateway@),
{
    assert forall|i: int| 0 <= i < mgas.filter(account_on(gws)).len()
        implies gws.contains((#[trigger] mgas.filter(account_on(gws))[i]).gateway@) by {
        mgas.lemma_filter_pred(account_on(gws), i);
    }
}

} // verus!
