//! The canonical asset record and the candidates that feed the store.

use vstd::prelude::*;

verus! {

broadcast use vstd::string::to_string_from_display_ensures_for_str;

/// The fixed set of instrument classes held in the cache.
#[derive(Clone, Copy, Debug, PartialEq, Eq, Structural)]
pub enum AssetType {
    Stock,
    Index,
    Fund,
}

/// Name under which an asset class is persisted.
pub open spec fn asset_type_name(t: AssetType) -> Seq<char> {
    match t {
        AssetType::Stock => "Stock"@,
        AssetType::Index => "Index"@,
        AssetType::Fund => "Fund"@,
    }
}

impl AssetType {
    /// The persisted name of this class.
    pub fn as_str(&self) -> (r: &'static str)
        ensures
            r@ == asset_type_name(*self),
    {
        match self {
            AssetType::Stock => "Stock",
            AssetType::Index => "Index",
            AssetType::Fund => "Fund",
        }
    }
}

/// Currency assumed when a provider gives none.
pub const DEFAULT_CURRENCY: &'static str = "VND";

/// Mathematical view of a normalised candidate.
pub ghost struct CandidateView {
    pub symbol: Seq<char>,
    pub name: Seq<char>,
    pub asset_type: AssetType,
    pub exchange: Seq<char>,
    pub currency: Seq<char>,
}

/// A normalised record ready to be merged into the store.
#[derive(Clone, Debug)]
pub struct NewVnAsset {
    pub symbol: String,
    pub name: String,
    pub asset_type: AssetType,
    pub exchange: String,
    pub currency: String,
}

impl View for NewVnAsset {
    type V = CandidateView;

    open spec fn view(&self) -> CandidateView {
        CandidateView {
            symbol: self.symbol@,
            name: self.name@,
            asset_type: self.asset_type,
            exchange: self.exchange@,
            currency: self.currency@,
        }
    }
}

impl NewVnAsset {
    /// A candidate in the default currency.
    pub fn new(symbol: String, name: String, asset_type: AssetType, exchange: String) -> (r: Self)
        ensures
            r.symbol == symbol,
            r.name == name,
            r.asset_type == asset_type,
            r.exchange == exchange,
            r.currency@ == DEFAULT_CURRENCY@,
    {
        NewVnAsset { symbol, name, asset_type, exchange, currency: DEFAULT_CURRENCY.to_string() }
    }
}

/// Mathematical view of a stored asset row.
pub ghost struct AssetView {
    pub symbol: Seq<char>,
    pub name: Seq<char>,
    pub asset_type: AssetType,
    pub exchange: Seq<char>,
    pub currency: Seq<char>,
    pub created_at: Seq<char>,
    pub updated_at: Seq<char>,
}

/// A cached instrument.
#[derive(Clone, Debug)]
pub struct VnAsset {
    pub symbol: String,
    pub name: String,
    pub asset_type: AssetType,
    pub exchange: String,
    pub currency: String,
    pub created_at: String,
    pub updated_at: String,
}

impl View for VnAsset {
    type V = AssetView;

    open spec fn view(&self) -> AssetView {
        AssetView {
            symbol: self.symbol@,
            name: self.name@,
            asset_type: self.asset_type,
            exchange: self.exchange@,
            currency: self.currency@,
            created_at: self.created_at@,
            updated_at: self.updated_at@,
        }
    }
}

/// The row that a first sighting of `c` at time `now` creates.
pub open spec fn inserted_row(c: CandidateView, now: Seq<char>) -> AssetView {
    AssetView {
        symbol: c.symbol,
        name: c.name,
        asset_type: c.asset_type,
        exchange: c.exchange,
        currency: c.currency,
        created_at: now,
        updated_at: now,
    }
}

/// Row `r` refreshed from `c` at time `now`: only the mutable fields change.
pub open spec fn refreshed_row(r: AssetView, c: CandidateView, now: Seq<char>) -> AssetView {
    AssetView { name: c.name, asset_type: c.asset_type, exchange: c.exchange, updated_at: now, ..r }
}

/// The mutable fields of `r` are those of `c`.
pub open spec fn carries(r: AssetView, c: CandidateView) -> bool {
    r.symbol == c.symbol && r.name == c.name && r.asset_type == c.asset_type && r.exchange == c.exchange
}

} // verus!
