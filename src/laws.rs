//! Laws of the store and of sync runs, proved over the models.

use vstd::prelude::*;
use crate::asset::{AssetView, CandidateView, carries, inserted_row};
use crate::repository::{has_symbol, index_of, unique_symbols, upsert_all, upsert_one};
use crate::asset::AssetType;
use crate::sync::{FundListing, classify, fund_candidates, is_index_symbol, listing_candidates, synced_rows};
use crate::text::occurs_at;
use crate::stock::VciSymbol;

verus! {

/// Some candidate of the batch holds `sym`.
pub open spec fn mentions(cs: Seq<CandidateView>, sym: Seq<char>) -> bool {
    exists|k: int| 0 <= k < cs.len() && cs[k].symbol == sym
}

/// The last candidate of the batch that holds `sym`.
pub open spec fn latest(cs: Seq<CandidateView>, sym: Seq<char>) -> CandidateView
    decreases cs.len(),
{
    if cs.len() == 0 {
        arbitrary()
    } else if cs.last().symbol == sym {
        cs.last()
    } else {
        latest(cs.drop_last(), sym)
    }
}

/// `b` is `a` up to the update times of its rows.
pub open spec fn same_but_update_times(a: Seq<AssetView>, b: Seq<AssetView>) -> bool {
    a.len() == b.len() && forall|i: int|
        0 <= i < a.len() ==> b[i] == (AssetView { updated_at: b[i].updated_at, ..a[i] })
}

proof fn lemma_upsert_one(m: Seq<AssetView>, c: CandidateView, now: Seq<char>)
    requires
        unique_symbols(m),
    ensures
        ({
            let r = upsert_one(m, c, now);
            &&& unique_symbols(r)
            &&& r.len() == if has_symbol(m, c.symbol) { m.len() } else { m.len() + 1 }
            &&& has_symbol(r, c.symbol)
            &&& forall|i: int| 0 <= i < m.len() ==> {
                &&& r[i].symbol == m[i].symbol
                &&& r[i].created_at == m[i].created_at
                &&& r[i].currency == m[i].currency
                &&& m[i].symbol != c.symbol ==> r[i] == m[i]
                &&& m[i].symbol == c.symbol ==> carries(r[i], c) && r[i].updated_at == now
            }
            &&& forall|i: int| m.len() <= i < r.len() ==> r[i] == inserted_row(c, now)
        }),
{
    let r = upsert_one(m, c, now);
    if has_symbol(m, c.symbol) {
        let j = index_of(m, c.symbol);
        assert(r[j].symbol == c.symbol);
    } else {
        assert(r[m.len() as int].symbol == c.symbol);
    }
}

proof fn lemma_mentions_step(cs: Seq<CandidateView>, sym: Seq<char>)
    requires
        cs.len() > 0,
    ensures
        mentions(cs, sym) == (mentions(cs.drop_last(), sym) || cs.last().symbol == sym),
{
    let p = cs.drop_last();
    if mentions(cs, sym) {
        let k = choose|k: int| 0 <= k < cs.len() && cs[k].symbol == sym;
        if k < p.len() {
            assert(p[k] == cs[k]);
        }
    }
    if mentions(p, sym) {
        let k = choose|k: int| 0 <= k < p.len() && p[k].symbol == sym;
        assert(cs[k] == p[k]);
    }
    if cs.last().symbol == sym {
        assert(cs[cs.len() - 1].symbol == sym);
    }
}

/// What a batch does to each row of the store.
proof fn lemma_upsert_all(rows: Seq<AssetView>, cs: Seq<CandidateView>, now: Seq<char>)
    requires
        unique_symbols(rows),
    ensures
        ({
            let r = upsert_all(rows, cs, now);
            &&& unique_symbols(r)
            &&& r.len() >= rows.len()
            &&& forall|i: int| 0 <= i < rows.len() ==> {
                &&& r[i].symbol == rows[i].symbol
                &&& r[i].created_at == rows[i].created_at
                &&& r[i].currency == rows[i].currency
            }
            &&& forall|i: int| 0 <= i < r.len() ==> if mentions(cs, #[trigger] r[i].symbol) {
                carries(r[i], latest(cs, r[i].symbol)) && r[i].updated_at == now
            } else {
                i < rows.len() && r[i] == rows[i]
            }
            &&& forall|k: int| 0 <= k < cs.len() ==> has_symbol(r, #[trigger] cs[k].symbol)
            &&& (forall|k: int| 0 <= k < cs.len() ==> has_symbol(rows, #[trigger] cs[k].symbol)) ==> r.len() == rows.len()
        }),
    decreases cs.len(),
{
    if cs.len() == 0 {
        return;
    }
    let p = cs.drop_last();
    let c = cs.last();
    lemma_upsert_all(rows, p, now);
    let m = upsert_all(rows, p, now);
    lemma_upsert_one(m, c, now);
    let r = upsert_all(rows, cs, now);
    assert(r == upsert_one(m, c, now));
    assert forall|i: int| 0 <= i < r.len() implies if mentions(cs, #[trigger] r[i].symbol) {
        carries(r[i], latest(cs, r[i].symbol)) && r[i].updated_at == now
    } else {
        i < rows.len() && r[i] == rows[i]
    } by {
        lemma_mentions_step(cs, r[i].symbol);
        if r[i].symbol != c.symbol {
            assert(i < m.len());
            assert(latest(cs, r[i].symbol) == latest(p, r[i].symbol));
            assert(mentions(p, m[i].symbol) == mentions(p, r[i].symbol));
        }
    }
    assert forall|k: int| 0 <= k < cs.len() implies has_symbol(r, #[trigger] cs[k].symbol) by {
        if k < p.len() {
            assert(p[k] == cs[k]);
            assert(has_symbol(m, p[k].symbol));
            let j = choose|j: int| 0 <= j < m.len() && m[j].symbol == p[k].symbol;
            assert(r[j].symbol == m[j].symbol);
        }
    }
    if forall|k: int| 0 <= k < cs.len() ==> has_symbol(rows, #[trigger] cs[k].symbol) {
        assert forall|k: int| 0 <= k < p.len() implies has_symbol(rows, #[trigger] p[k].symbol) by {
            assert(p[k] == cs[k]);
        }
        assert(has_symbol(rows, cs[cs.len() - 1].symbol));
        let j = choose|j: int| 0 <= j < rows.len() && rows[j].symbol == c.symbol;
        assert(m[j].symbol == c.symbol);
    }
}

/// After a bulk upsert, the row of every symbol of the batch carries the
/// name, class and exchange of the last candidate with that symbol, and
/// symbols stay unique.
pub proof fn lemma_upsert_last_write_wins(rows: Seq<AssetView>, cs: Seq<CandidateView>, now: Seq<char>)
    requires
        unique_symbols(rows),
    ensures
        unique_symbols(upsert_all(rows, cs, now)),
        forall|k: int| 0 <= k < cs.len() ==> {
            let r = upsert_all(rows, cs, now);
            &&& has_symbol(r, #[trigger] cs[k].symbol)
            &&& carries(r[index_of(r, cs[k].symbol)], latest(cs, cs[k].symbol))
        },
{
    lemma_upsert_all(rows, cs, now);
    let r = upsert_all(rows, cs, now);
    assert forall|k: int| 0 <= k < cs.len() implies carries(
        r[index_of(r, #[trigger] cs[k].symbol)],
        latest(cs, cs[k].symbol),
    ) by {
        assert(has_symbol(r, cs[k].symbol));
        let j = index_of(r, cs[k].symbol);
        assert(r[j].symbol == cs[k].symbol);
        assert(mentions(cs, r[j].symbol));
    }
}

/// Applying the same batch a second time changes nothing but update times.
pub proof fn lemma_upsert_idempotent(
    rows: Seq<AssetView>,
    cs: Seq<CandidateView>,
    first: Seq<char>,
    second: Seq<char>,
)
    requires
        unique_symbols(rows),
    ensures
        same_but_update_times(upsert_all(rows, cs, first), upsert_all(upsert_all(rows, cs, first), cs, second)),
{
    lemma_upsert_all(rows, cs, first);
    let r1 = upsert_all(rows, cs, first);
    lemma_upsert_all(r1, cs, second);
    let r2 = upsert_all(r1, cs, second);
    assert forall|i: int| 0 <= i < r1.len() implies r2[i] == (AssetView { updated_at: r2[i].updated_at, ..r1[i] }) by {
        if mentions(cs, r2[i].symbol) {
            assert(r1[i].symbol == r2[i].symbol);
            assert(carries(r1[i], latest(cs, r1[i].symbol)));
        }
    }
}

/// Two upserts of one symbol leave exactly one row for it, with the second name.
pub proof fn lemma_upsert_same_symbol_twice(
    rows: Seq<AssetView>,
    first: CandidateView,
    second: CandidateView,
    t1: Seq<char>,
    t2: Seq<char>,
)
    requires
        unique_symbols(rows),
        first.symbol == second.symbol,
    ensures
        ({
            let r = upsert_all(upsert_all(rows, seq![first], t1), seq![second], t2);
            exists|i: int| 0 <= i < r.len() && r[i].symbol == second.symbol && r[i].name == second.name
                && forall|j: int| 0 <= j < r.len() && #[trigger] r[j].symbol == second.symbol ==> j == i
        }),
{
    lemma_upsert_all(rows, seq![first], t1);
    let m = upsert_all(rows, seq![first], t1);
    lemma_upsert_last_write_wins(m, seq![second], t2);
    let r = upsert_all(m, seq![second], t2);
    let cs = seq![second];
    assert(cs[0].symbol == second.symbol);
    let i = index_of(r, second.symbol);
    assert(latest(cs, second.symbol) == second);
    assert(r[i].symbol == second.symbol);
}

/// A cleared store holds no row, so no symbol is found in it.
pub proof fn lemma_cleared_store_is_empty(sym: Seq<char>)
    ensures
        Seq::<AssetView>::empty().len() == 0,
        !has_symbol(Seq::<AssetView>::empty(), sym),
{
}

proof fn lemma_upsert_all_concat(rows: Seq<AssetView>, a: Seq<CandidateView>, b: Seq<CandidateView>, now: Seq<char>)
    ensures
        upsert_all(upsert_all(rows, a, now), b, now) == upsert_all(rows, a + b, now),
    decreases b.len(),
{
    if b.len() == 0 {
        assert(a + b =~= a);
    } else {
        lemma_upsert_all_concat(rows, a, b.drop_last(), now);
        assert((a + b).drop_last() =~= a + b.drop_last());
        assert((a + b).last() == b.last());
    }
}

/// Two runs on unchanged source outcomes leave the store as the first run
/// left it, up to update times.
pub proof fn lemma_sync_converges(
    rows: Seq<AssetView>,
    stocks: Result<Vec<VciSymbol>, String>,
    funds: Result<Vec<FundListing>, String>,
    first: Seq<char>,
    second: Seq<char>,
)
    requires
        unique_symbols(rows),
    ensures
        same_but_update_times(
            synced_rows(rows, stocks, funds, first),
            synced_rows(synced_rows(rows, stocks, funds, first), stocks, funds, second),
        ),
{
    let cs = listing_candidates(stocks) + fund_candidates(funds);
    lemma_upsert_all_concat(rows, listing_candidates(stocks), fund_candidates(funds), first);
    let r1 = synced_rows(rows, stocks, funds, first);
    lemma_upsert_all_concat(r1, listing_candidates(stocks), fund_candidates(funds), second);
    lemma_upsert_idempotent(rows, cs, first, second);
}

/// A listed entry whose symbol meets the index heuristic is an index,
/// whatever class the provider tags it with; "VNINDEX" is one.
pub proof fn lemma_index_symbol_ignores_type_flag(s: VciSymbol)
    requires
        s.listed,
        is_index_symbol(s.symbol@) || s.symbol@ == "VNINDEX"@,
    ensures
        classify(s) == Some(AssetType::Index),
{
    if s.symbol@ == "VNINDEX"@ {
        reveal_strlit("VNINDEX");
        reveal_strlit("VN");
        assert(s.symbol@.subrange(0, 2) =~= "VN"@);
        assert(occurs_at(s.symbol@, "VN"@, 0));
    }
}

/// A run whose listing source failed counts exactly the funds it was given.
pub proof fn lemma_failed_listing_counts_only_funds(
    stocks: Result<Vec<VciSymbol>, String>,
    funds: Result<Vec<FundListing>, String>,
)
    requires
        stocks is Err,
        funds is Ok,
    ensures
        listing_candidates(stocks).len() + fund_candidates(funds).len() == funds->Ok_0@.len(),
{
}

} // verus!
