//! The asset store: unique symbols, idempotent bulk upsert, lookups.

use vstd::prelude::*;
use crate::asset::{AssetType, AssetView, CandidateView, NewVnAsset, VnAsset, inserted_row, refreshed_row};
use crate::text::{contains_str, lower_of, lowercase, seq_contains, str_equal};

verus! {

broadcast use vstd::string::to_string_from_display_ensures_for_str;

/// Most rows that one search returns.
pub const SEARCH_LIMIT: usize = 20;

/// No two rows share a symbol.
pub open spec fn unique_symbols(rows: Seq<AssetView>) -> bool {
    forall|i: int, j: int|
        0 <= i < rows.len() && 0 <= j < rows.len() && i != j ==> rows[i].symbol != rows[j].symbol
}

/// Some row holds `sym`.
pub open spec fn has_symbol(rows: Seq<AssetView>, sym: Seq<char>) -> bool {
    exists|i: int| 0 <= i < rows.len() && rows[i].symbol == sym
}

/// The position of the row that holds `sym`, where there is one.
pub open spec fn index_of(rows: Seq<AssetView>, sym: Seq<char>) -> int {
    choose|i: int| 0 <= i < rows.len() && rows[i].symbol == sym
}

/// Merge one candidate: refresh the row of its symbol, or append a new row.
pub open spec fn upsert_one(rows: Seq<AssetView>, c: CandidateView, now: Seq<char>) -> Seq<AssetView> {
    if has_symbol(rows, c.symbol) {
        let i = index_of(rows, c.symbol);
        rows.update(i, refreshed_row(rows[i], c, now))
    } else {
        rows.push(inserted_row(c, now))
    }
}

/// Merge a batch of candidates in order, so the later of two with one symbol wins.
pub open spec fn upsert_all(rows: Seq<AssetView>, cs: Seq<CandidateView>, now: Seq<char>) -> Seq<AssetView>
    decreases cs.len(),
{
    if cs.len() == 0 {
        rows
    } else {
        upsert_one(upsert_all(rows, cs.drop_last(), now), cs.last(), now)
    }
}

/// Views of a batch of candidates.
pub open spec fn candidate_views(cs: Seq<NewVnAsset>) -> Seq<CandidateView> {
    cs.map_values(|c: NewVnAsset| c@)
}

/// Views of a sequence of rows.
pub open spec fn asset_views(rs: Seq<VnAsset>) -> Seq<AssetView> {
    rs.map_values(|r: VnAsset| r@)
}

/// A row matches a lower-cased query when the query occurs in its lower-cased
/// symbol or name.
pub open spec fn row_matches(r: AssetView, folded_query: Seq<char>) -> bool {
    seq_contains(lower_of(r.symbol), folded_query) || seq_contains(lower_of(r.name), folded_query)
}

/// At most the first `SEARCH_LIMIT` elements.
pub open spec fn capped<A>(s: Seq<A>) -> Seq<A> {
    if s.len() <= SEARCH_LIMIT {
        s
    } else {
        s.take(SEARCH_LIMIT as int)
    }
}

/// What a search for the lower-cased query returns: the first matching rows.
pub open spec fn search_result(rows: Seq<AssetView>, folded_query: Seq<char>) -> Seq<AssetView> {
    capped(rows.filter(|r: AssetView| row_matches(r, folded_query)))
}

/// The rows of one class, in store order.
pub open spec fn rows_of_type(rows: Seq<AssetView>, t: AssetType) -> Seq<AssetView> {
    rows.filter(|r: AssetView| r.asset_type == t)
}

/// Whether a row with the lower-cased symbol and name matches the lower-cased query.
pub fn matches_folded(folded_query: &str, folded_symbol: &str, folded_name: &str) -> (r: bool)
    ensures
        r == (seq_contains(folded_symbol@, folded_query@) || seq_contains(folded_name@, folded_query@)),
{
    contains_str(folded_symbol, folded_query) || contains_str(folded_name, folded_query)
}

/// The store of cached assets, in insertion order.
pub struct VnAssetsRepository {
    rows: Vec<VnAsset>,
}

impl View for VnAssetsRepository {
    type V = Seq<AssetView>;

    closed spec fn view(&self) -> Seq<AssetView> {
        asset_views(self.rows@)
    }
}

/// A copy of a row, field by field.
fn copy_row(a: &VnAsset) -> (r: VnAsset)
    ensures
        r@ == a@,
{
    VnAsset {
        symbol: a.symbol.clone(),
        name: a.name.clone(),
        asset_type: a.asset_type,
        exchange: a.exchange.clone(),
        currency: a.currency.clone(),
        created_at: a.created_at.clone(),
        updated_at: a.updated_at.clone(),
    }
}

impl VnAssetsRepository {
    /// Symbols are unique across the store.
    pub open spec fn wf(&self) -> bool {
        unique_symbols(self@)
    }

    /// An empty store.
    pub fn new() -> (r: Self)
        ensures
            r.wf(),
            r@ == Seq::<AssetView>::empty(),
    {
        let r = VnAssetsRepository { rows: Vec::new() };
        assert(r@ =~= Seq::<AssetView>::empty());
        r
    }

    /// Position of the row holding `symbol`.
    fn position(&self, symbol: &str) -> (r: Option<usize>)
        requires
            self.wf(),
        ensures
            match r {
                Some(i) => i < self@.len() && self@[i as int].symbol == symbol@ && index_of(self@, symbol@) == i,
                None => !has_symbol(self@, symbol@),
            },
    {
        let mut i: usize = 0;
        while i < self.rows.len()
            invariant
                self.wf(),
                i <= self.rows.len(),
                self@.len() == self.rows.len(),
                forall|k: int| 0 <= k < i ==> self@[k].symbol != symbol@,
            decreases self.rows.len() - i,
        {
            assert(self@[i as int] == self.rows@[i as int]@);
            if str_equal(self.rows[i].symbol.as_str(), symbol) {
                assert(has_symbol(self@, symbol@));
                let ghost j = index_of(self@, symbol@);
                assert(self@[j].symbol == symbol@);
                return Some(i);
            }
            i = i + 1;
        }
        None
    }

    /// Case-insensitive substring search on symbol or name, at most `SEARCH_LIMIT` rows.
    pub fn search(&self, query: &str) -> (r: Vec<VnAsset>)
        ensures
            asset_views(r@) == search_result(self@, lower_of(query@)),
    {
        let folded = lowercase(query);
        self.search_folded(folded.as_str())
    }

    /// Search for a query that is already lower-cased.
    pub fn search_folded(&self, folded_query: &str) -> (r: Vec<VnAsset>)
        ensures
            asset_views(r@) == search_result(self@, folded_query@),
    {
        let ghost pred = |r: AssetView| row_matches(r, folded_query@);
        let mut out: Vec<VnAsset> = Vec::new();
        let mut i: usize = 0;
        while i < self.rows.len()
            invariant
                i <= self.rows.len(),
                self@.len() == self.rows.len(),
                pred == (|r: AssetView| row_matches(r, folded_query@)),
                asset_views(out@) == capped(self@.take(i as int).filter(pred)),
            decreases self.rows.len() - i,
        {
            let row = &self.rows[i];
            assert(self@[i as int] == row@);
            let ls = lowercase(row.symbol.as_str());
            let ln = lowercase(row.name.as_str());
            let m = matches_folded(folded_query, ls.as_str(), ln.as_str());
            let ghost before = self@.take(i as int).filter(pred);
            assert(self@.take(i + 1).drop_last() =~= self@.take(i as int));
            proof {
                reveal(Seq::filter);
            }
            assert(self@.take(i + 1).last() == row@);
            if m && out.len() < SEARCH_LIMIT {
                let ghost old_out = out@;
                out.push(copy_row(row));
                assert(asset_views(out@) =~= asset_views(old_out).push(row@));
                assert(capped(before.push(row@)) =~= capped(before).push(row@));
            } else if m {
                assert(capped(before.push(row@)) =~= capped(before));
            }
            i = i + 1;
        }
        assert(self@.take(i as int) =~= self@);
        out
    }

    /// The row holding `symbol`, if any.
    pub fn get_by_symbol(&self, symbol: &str) -> (r: Option<VnAsset>)
        requires
            self.wf(),
        ensures
            match r {
                Some(a) => has_symbol(self@, symbol@) && a@ == self@[index_of(self@, symbol@)],
                None => !has_symbol(self@, symbol@),
            },
    {
        match self.position(symbol) {
            Some(i) => {
                assert(self@[i as int] == self.rows@[i as int]@);
                Some(copy_row(&self.rows[i]))
            },
            None => None,
        }
    }

    /// All rows of one class.
    pub fn get_by_type(&self, asset_type: AssetType) -> (r: Vec<VnAsset>)
        ensures
            asset_views(r@) == rows_of_type(self@, asset_type),
    {
        let ghost pred = |r: AssetView| r.asset_type == asset_type;
        let mut out: Vec<VnAsset> = Vec::new();
        let mut i: usize = 0;
        while i < self.rows.len()
            invariant
                i <= self.rows.len(),
                self@.len() == self.rows.len(),
                pred == (|r: AssetView| r.asset_type == asset_type),
                asset_views(out@) == self@.take(i as int).filter(pred),
            decreases self.rows.len() - i,
        {
            let row = &self.rows[i];
            assert(self@[i as int] == row@);
            assert(self@.take(i + 1).drop_last() =~= self@.take(i as int));
            proof {
                reveal(Seq::filter);
            }
            if row.asset_type == asset_type {
                let ghost old_out = out@;
                out.push(copy_row(row));
                assert(asset_views(out@) =~= asset_views(old_out).push(row@));
            }
            i = i + 1;
        }
        assert(self@.take(i as int) =~= self@);
        out
    }

    /// Merge one candidate into the store.
    fn merge_one(&mut self, a: &NewVnAsset, now: &str)
        requires
            old(self).wf(),
        ensures
            final(self).wf(),
            final(self)@ == upsert_one(old(self)@, a@, now@),
    {
        let ghost prev = self@;
        match self.position(a.symbol.as_str()) {
            Some(i) => {
                let old_row = &self.rows[i];
                assert(prev[i as int] == old_row@);
                let row = VnAsset {
                    symbol: old_row.symbol.clone(),
                    name: a.name.clone(),
                    asset_type: a.asset_type,
                    exchange: a.exchange.clone(),
                    currency: old_row.currency.clone(),
                    created_at: old_row.created_at.clone(),
                    updated_at: now.to_string(),
                };
                self.rows.set(i, row);
                assert(self@ =~= prev.update(i as int, refreshed_row(prev[i as int], a@, now@)));
            },
            None => {
                let row = VnAsset {
                    symbol: a.symbol.clone(),
                    name: a.name.clone(),
                    asset_type: a.asset_type,
                    exchange: a.exchange.clone(),
                    currency: a.currency.clone(),
                    created_at: now.to_string(),
                    updated_at: now.to_string(),
                };
                self.rows.push(row);
                assert(self@ =~= prev.push(inserted_row(a@, now@)));
            },
        }
    }

    /// Merge a batch: a candidate with a new symbol becomes a row, one with a
    /// known symbol refreshes that row's name, class, exchange and update time.
    /// Returns the number of candidates processed.
    pub fn upsert_bulk(&mut self, assets: &[NewVnAsset], now: &str) -> (r: usize)
        requires
            old(self).wf(),
        ensures
            final(self).wf(),
            final(self)@ == upsert_all(old(self)@, candidate_views(assets@), now@),
            r == assets@.len(),
    {
        let ghost cs = candidate_views(assets@);
        let mut i: usize = 0;
        while i < assets.len()
            invariant
                self.wf(),
                i <= assets@.len(),
                cs == candidate_views(assets@),
                self@ == upsert_all(old(self)@, cs.take(i as int), now@),
            decreases assets.len() - i,
        {
            assert(cs.take(i + 1).drop_last() =~= cs.take(i as int));
            assert(cs.take(i + 1).last() == assets@[i as int]@);
            self.merge_one(&assets[i], now);
            i = i + 1;
        }
        assert(cs.take(i as int) =~= cs);
        i
    }

    /// Number of rows.
    pub fn count(&self) -> (r: usize)
        ensures
            r == self@.len(),
    {
        self.rows.len()
    }

    /// Remove every row; returns how many there were.
    pub fn clear_all(&mut self) -> (r: usize)
        ensures
            r == old(self)@.len(),
            final(self)@ == Seq::<AssetView>::empty(),
            final(self).wf(),
    {
        let n = self.rows.len();
        self.rows = Vec::new();
        assert(self@ =~= Seq::<AssetView>::empty());
        n
    }
}

} // verus!
