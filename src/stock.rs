//! Records of the equity/index listing provider and its code tables.

use vstd::prelude::*;
use crate::text::{str_equal, upper_of, uppercase};

verus! {

/// One entry of the equity/index provider's symbol listing.
#[derive(Clone, Debug)]
pub struct VciSymbol {
    /// Ticker, e.g. "VNM".
    pub symbol: String,
    /// Exchange board: "HSX", "HNX", "UPCOM".
    pub board: String,
    /// Provider class: "STOCK", "ETF", "BOND", ...
    pub asset_type: String,
    /// Company name in Vietnamese.
    pub organ_name: String,
    /// Short company name.
    pub organ_short_name: Option<String>,
    /// English company name.
    pub en_organ_name: Option<String>,
    /// Whether the instrument is currently listed.
    pub listed: bool,
}

/// Venue normalisation: board "HSX" is the HOSE exchange, other codes pass.
pub open spec fn exchange_of(board: Seq<char>) -> Seq<char> {
    if board == "HSX"@ {
        "HOSE"@
    } else {
        board
    }
}

/// Display name: the short name when there is one, else the full name.
pub open spec fn display_name_of(s: VciSymbol) -> Seq<char> {
    match s.organ_short_name {
        Some(n) => n@,
        None => s.organ_name@,
    }
}

impl VciSymbol {
    /// Normalised exchange code.
    pub fn exchange(&self) -> (r: &str)
        ensures
            r@ == exchange_of(self.board@),
    {
        if str_equal(self.board.as_str(), "HSX") {
            "HOSE"
        } else {
            self.board.as_str()
        }
    }

    /// Whether the provider tags this entry as a stock.
    pub fn is_stock(&self) -> (r: bool)
        ensures
            r == (self.asset_type@ == "STOCK"@),
    {
        str_equal(self.asset_type.as_str(), "STOCK")
    }

    /// Whether the instrument is currently listed.
    pub fn is_listed(&self) -> (r: bool)
        ensures
            r == self.listed,
    {
        self.listed
    }

    /// Name shown for the instrument.
    pub fn display_name(&self) -> (r: &str)
        ensures
            r@ == display_name_of(*self),
    {
        match &self.organ_short_name {
            Some(n) => n.as_str(),
            None => self.organ_name.as_str(),
        }
    }
}

/// Bar interval of the price-history endpoint.
#[derive(Clone, Copy, Debug, PartialEq, Eq, Structural)]
pub enum VciInterval {
    OneMinute,
    OneHour,
    OneDay,
}

/// The code that the provider's API uses for an interval.
pub open spec fn interval_code(i: VciInterval) -> Seq<char> {
    match i {
        VciInterval::OneMinute => "ONE_MINUTE"@,
        VciInterval::OneHour => "ONE_HOUR"@,
        VciInterval::OneDay => "ONE_DAY"@,
    }
}

impl VciInterval {
    /// API value for the interval.
    pub fn as_api_value(&self) -> (r: &'static str)
        ensures
            r@ == interval_code(*self),
    {
        match self {
            VciInterval::OneMinute => "ONE_MINUTE",
            VciInterval::OneHour => "ONE_HOUR",
            VciInterval::OneDay => "ONE_DAY",
        }
    }
}

/// The provider's code for an index, given its upper-cased symbol.
pub open spec fn index_code_of(upper: Seq<char>) -> Option<Seq<char>> {
    if upper == "VNINDEX"@ {
        Some("VNINDEX"@)
    } else if upper == "HNXINDEX"@ {
        Some("HNXIndex"@)
    } else if upper == "UPCOMINDEX"@ {
        Some("HNXUpcomIndex"@)
    } else {
        None
    }
}

/// The characters of an optional string.
pub open spec fn opt_chars(r: Option<&str>) -> Option<Seq<char>> {
    match r {
        Some(s) => Some(s@),
        None => None,
    }
}

/// Index code lookup on a symbol that is already upper-cased.
pub fn map_upper_index_symbol(upper: &str) -> (r: Option<&'static str>)
    ensures
        opt_chars(r) == index_code_of(upper@),
{
    if str_equal(upper, "VNINDEX") {
        Some("VNINDEX")
    } else if str_equal(upper, "HNXINDEX") {
        Some("HNXIndex")
    } else if str_equal(upper, "UPCOMINDEX") {
        Some("HNXUpcomIndex")
    } else {
        None
    }
}

/// Index code lookup, case-insensitive in the symbol.
pub fn map_index_symbol(symbol: &str) -> (r: Option<&'static str>)
    ensures
        opt_chars(r) == index_code_of(upper_of(symbol@)),
{
    let upper = uppercase(symbol);
    map_upper_index_symbol(upper.as_str())
}

} // verus!
