//! Normalisation of provider listings and the one-shot sync run.

use vstd::prelude::*;
use crate::asset::{AssetType, AssetView, CandidateView, DEFAULT_CURRENCY, NewVnAsset};
use crate::repository::{VnAssetsRepository, candidate_views, upsert_all};
use crate::stock::{VciSymbol, display_name_of, exchange_of};
use crate::text::{contains_str, seq_contains, seq_starts_with, starts_with_str};

verus! {

broadcast use vstd::string::to_string_from_display_ensures_for_str;

/// Exchange code given to every fund.
pub const FUND_EXCHANGE: &'static str = "FUND";

/// Identifier of the single sync bookkeeping record.
pub const SYNC_STATUS_ID: &'static str = "vn_assets_sync_status";

/// One entry of the fund provider's listing.
#[derive(Clone, Debug)]
pub struct FundListing {
    /// Fund short code.
    pub short_name: String,
    /// Fund full name.
    pub name: String,
}

/// The index heuristic: the symbol contains "INDEX" or starts with "VN".
pub open spec fn is_index_symbol(sym: Seq<char>) -> bool {
    seq_contains(sym, "INDEX"@) || seq_starts_with(sym, "VN"@)
}

/// Class of a listing entry, or `None` when it is skipped.
pub open spec fn classify(s: VciSymbol) -> Option<AssetType> {
    if !s.listed {
        None
    } else if is_index_symbol(s.symbol@) {
        Some(AssetType::Index)
    } else if s.asset_type@ == "STOCK"@ {
        Some(AssetType::Stock)
    } else {
        None
    }
}

/// The candidate made from a listing entry of class `t`.
pub open spec fn symbol_candidate(s: VciSymbol, t: AssetType) -> CandidateView {
    CandidateView {
        symbol: s.symbol@,
        name: display_name_of(s),
        asset_type: t,
        exchange: exchange_of(s.board@),
        currency: DEFAULT_CURRENCY@,
    }
}

/// Candidates of a listing, in order, skipped entries left out.
pub open spec fn normalized_symbols(ss: Seq<VciSymbol>) -> Seq<CandidateView>
    decreases ss.len(),
{
    if ss.len() == 0 {
        Seq::empty()
    } else {
        let rest = normalized_symbols(ss.drop_last());
        match classify(ss.last()) {
            Some(t) => rest.push(symbol_candidate(ss.last(), t)),
            None => rest,
        }
    }
}

/// The candidate made from a fund.
pub open spec fn fund_candidate(f: FundListing) -> CandidateView {
    CandidateView {
        symbol: f.short_name@,
        name: f.name@,
        asset_type: AssetType::Fund,
        exchange: FUND_EXCHANGE@,
        currency: DEFAULT_CURRENCY@,
    }
}

/// Candidates of a fund listing, one per fund.
pub open spec fn normalized_funds(fs: Seq<FundListing>) -> Seq<CandidateView> {
    fs.map_values(|f: FundListing| fund_candidate(f))
}

/// Class of a listing entry, or `None` when it is skipped.
pub fn classify_symbol(s: &VciSymbol) -> (r: Option<AssetType>)
    ensures
        r == classify(*s),
{
    if !s.is_listed() {
        None
    } else if contains_str(s.symbol.as_str(), "INDEX") || starts_with_str(s.symbol.as_str(), "VN") {
        Some(AssetType::Index)
    } else if s.is_stock() {
        Some(AssetType::Stock)
    } else {
        None
    }
}

/// Candidates of an equity/index listing.
pub fn normalize_symbols(symbols: &Vec<VciSymbol>) -> (r: Vec<NewVnAsset>)
    ensures
        candidate_views(r@) == normalized_symbols(symbols@),
{
    let mut out: Vec<NewVnAsset> = Vec::new();
    let mut i: usize = 0;
    while i < symbols.len()
        invariant
            i <= symbols@.len(),
            candidate_views(out@) == normalized_symbols(symbols@.take(i as int)),
        decreases symbols.len() - i,
    {
        let s = &symbols[i];
        assert(symbols@.take(i + 1).drop_last() =~= symbols@.take(i as int));
        assert(symbols@.take(i + 1).last() == *s);
        match classify_symbol(s) {
            Some(t) => {
                let ghost old_out = out@;
                let a = NewVnAsset::new(
                    s.symbol.clone(),
                    s.display_name().to_string(),
                    t,
                    s.exchange().to_string(),
                );
                out.push(a);
                assert(candidate_views(out@) =~= candidate_views(old_out).push(symbol_candidate(*s, t)));
            },
            None => {},
        }
        i = i + 1;
    }
    assert(symbols@.take(i as int) =~= symbols@);
    out
}

/// Candidates of a fund listing.
pub fn normalize_funds(funds: &Vec<FundListing>) -> (r: Vec<NewVnAsset>)
    ensures
        candidate_views(r@) == normalized_funds(funds@),
{
    let mut out: Vec<NewVnAsset> = Vec::new();
    let mut i: usize = 0;
    while i < funds.len()
        invariant
            i <= funds@.len(),
            candidate_views(out@) == normalized_funds(funds@.take(i as int)),
        decreases funds.len() - i,
    {
        let f = &funds[i];
        let ghost old_out = out@;
        let a = NewVnAsset::new(f.short_name.clone(), f.name.clone(), AssetType::Fund, FUND_EXCHANGE.to_string());
        out.push(a);
        assert(candidate_views(out@) =~= candidate_views(old_out).push(fund_candidate(*f)));
        assert(normalized_funds(funds@.take(i + 1)) =~= normalized_funds(funds@.take(i as int)).push(fund_candidate(*f)));
        i = i + 1;
    }
    assert(funds@.take(i as int) =~= funds@);
    out
}

/// The single bookkeeping record of the sync runs.
#[derive(Clone, Debug)]
pub struct SyncMetadata {
    pub id: String,
    pub last_synced_at: String,
    /// Number of candidates synced by the most recent run.
    pub sync_count: usize,
    pub created_at: String,
    pub updated_at: String,
}

/// What a sync run reports.
#[derive(Clone, Debug)]
pub struct SyncResult {
    pub total_synced: usize,
    pub timestamp: String,
}

/// Candidates that a source outcome yields: none when the source failed.
pub open spec fn listing_candidates(r: Result<Vec<VciSymbol>, String>) -> Seq<CandidateView> {
    match r {
        Ok(v) => normalized_symbols(v@),
        Err(_) => Seq::empty(),
    }
}

/// Candidates that a fund source outcome yields: none when the source failed.
pub open spec fn fund_candidates(r: Result<Vec<FundListing>, String>) -> Seq<CandidateView> {
    match r {
        Ok(v) => normalized_funds(v@),
        Err(_) => Seq::empty(),
    }
}

/// Number of entries a source outcome carries.
pub open spec fn outcome_len<T>(r: Result<Vec<T>, String>) -> nat {
    match r {
        Ok(v) => v@.len(),
        Err(_) => 0,
    }
}

/// The store after one run on the two source outcomes.
pub open spec fn synced_rows(
    rows: Seq<AssetView>,
    stocks: Result<Vec<VciSymbol>, String>,
    funds: Result<Vec<FundListing>, String>,
    now: Seq<char>,
) -> Seq<AssetView> {
    upsert_all(upsert_all(rows, listing_candidates(stocks), now), fund_candidates(funds), now)
}

/// `m` is the bookkeeping record written at `now` for `count` candidates,
/// following the record `prev`.
pub open spec fn metadata_written(m: SyncMetadata, prev: Option<SyncMetadata>, count: nat, now: Seq<char>) -> bool {
    &&& m.id@ == SYNC_STATUS_ID@
    &&& m.last_synced_at@ == now
    &&& m.sync_count == count
    &&& m.updated_at@ == now
    &&& m.created_at@ == match prev {
        Some(p) => p.created_at@,
        None => now,
    }
}

/// Candidates of the normalised listing, at most as many as its entries.
proof fn lemma_normalized_len(ss: Seq<VciSymbol>)
    ensures
        normalized_symbols(ss).len() <= ss.len(),
    decreases ss.len(),
{
    if ss.len() > 0 {
        lemma_normalized_len(ss.drop_last());
    }
}

/// Relies on chrono's `Utc::now`, rendered by `DateTime::to_rfc3339`: the
/// current time as text. Nothing is promised of its value.
#[verifier::external_body]
fn current_timestamp() -> (r: String) {
    chrono::Utc::now().to_rfc3339()
}

/// Drives sync runs into a store and keeps their bookkeeping record.
pub struct VnAssetsSyncService {
    pub repository: VnAssetsRepository,
    pub metadata: Option<SyncMetadata>,
}

impl VnAssetsSyncService {
    /// The store is well formed.
    pub open spec fn wf(&self) -> bool {
        self.repository.wf()
    }

    /// A service over an empty store, with no run recorded.
    pub fn new() -> (r: Self)
        ensures
            r.wf(),
            r.repository@ == Seq::<AssetView>::empty(),
            r.metadata.is_none(),
    {
        VnAssetsSyncService { repository: VnAssetsRepository::new(), metadata: None }
    }

    /// Merge the equity/index source's outcome; a failure is handed back untouched.
    pub fn sync_stocks_and_indices(&mut self, listing: Result<Vec<VciSymbol>, String>, now: &str) -> (r: Result<usize, String>)
        requires
            old(self).wf(),
        ensures
            final(self).wf(),
            final(self).metadata == old(self).metadata,
            final(self).repository@ == upsert_all(old(self).repository@, listing_candidates(listing), now@),
            match listing {
                Ok(v) => r == Ok::<usize, String>(normalized_symbols(v@).len() as usize),
                Err(e) => r == Err::<usize, String>(e),
            },
    {
        match listing {
            Ok(symbols) => {
                let assets = normalize_symbols(&symbols);
                let count = assets.len();
                self.repository.upsert_bulk(assets.as_slice(), now);
                Ok(count)
            },
            Err(e) => Err(e),
        }
    }

    /// Merge the fund source's outcome; a failure is handed back untouched.
    pub fn sync_funds(&mut self, listing: Result<Vec<FundListing>, String>, now: &str) -> (r: Result<usize, String>)
        requires
            old(self).wf(),
        ensures
            final(self).wf(),
            final(self).metadata == old(self).metadata,
            final(self).repository@ == upsert_all(old(self).repository@, fund_candidates(listing), now@),
            match listing {
                Ok(v) => r == Ok::<usize, String>(v@.len() as usize),
                Err(e) => r == Err::<usize, String>(e),
            },
    {
        match listing {
            Ok(funds) => {
                let assets = normalize_funds(&funds);
                let count = assets.len();
                self.repository.upsert_bulk(assets.as_slice(), now);
                Ok(count)
            },
            Err(e) => Err(e),
        }
    }

    /// Write the bookkeeping record: created on the first run, refreshed after.
    pub fn update_sync_metadata(&mut self, synced_count: usize, now: &str)
        ensures
            final(self).repository == old(self).repository,
            final(self).metadata matches Some(m) && metadata_written(m, old(self).metadata, synced_count as nat, now@),
    {
        let created_at = match &self.metadata {
            Some(m) => m.created_at.clone(),
            None => now.to_string(),
        };
        self.metadata = Some(SyncMetadata {
            id: SYNC_STATUS_ID.to_string(),
            last_synced_at: now.to_string(),
            sync_count: synced_count,
            created_at,
            updated_at: now.to_string(),
        });
    }

    /// One run at time `now` on the outcomes of the two sources. A failed
    /// source adds nothing and stops nothing; the record is written in any case.
    pub fn sync_all_assets_at(
        &mut self,
        stocks: Result<Vec<VciSymbol>, String>,
        funds: Result<Vec<FundListing>, String>,
        now: &str,
    ) -> (r: SyncResult)
        requires
            old(self).wf(),
            outcome_len(stocks) + outcome_len(funds) <= usize::MAX,
        ensures
            final(self).wf(),
            final(self).repository@ == synced_rows(old(self).repository@, stocks, funds, now@),
            r.total_synced == listing_candidates(stocks).len() + fund_candidates(funds).len(),
            r.timestamp@ == now@,
            final(self).metadata matches Some(m) && metadata_written(m, old(self).metadata, r.total_synced as nat, now@),
    {
        proof {
            if stocks is Ok {
                lemma_normalized_len(stocks->Ok_0@);
            }
        }
        let mut total_synced: usize = 0;
        match self.sync_stocks_and_indices(stocks, now) {
            Ok(count) => {
                total_synced = total_synced + count;
            },
            Err(_) => {},
        }
        match self.sync_funds(funds, now) {
            Ok(count) => {
                total_synced = total_synced + count;
            },
            Err(_) => {},
        }
        self.update_sync_metadata(total_synced, now);
        SyncResult { total_synced, timestamp: now.to_string() }
    }

    /// One run stamped with the current time.
    pub fn sync_all_assets(
        &mut self,
        stocks: Result<Vec<VciSymbol>, String>,
        funds: Result<Vec<FundListing>, String>,
    ) -> (r: SyncResult)
        requires
            old(self).wf(),
            outcome_len(stocks) + outcome_len(funds) <= usize::MAX,
        ensures
            final(self).wf(),
            final(self).repository@ == synced_rows(old(self).repository@, stocks, funds, r.timestamp@),
            r.total_synced == listing_candidates(stocks).len() + fund_candidates(funds).len(),
            final(self).metadata matches Some(m) && metadata_written(m, old(self).metadata, r.total_synced as nat, r.timestamp@),
    {
        let now = current_timestamp();
        self.sync_all_assets_at(stocks, funds, now.as_str())
    }

    /// Number of cached assets.
    pub fn get_asset_count(&self) -> (r: usize)
        ensures
            r == self.repository@.len(),
    {
        self.repository.count()
    }
}

} // verus!
