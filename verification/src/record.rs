//! The decoded market-data unit.

use vstd::prelude::*;

verus! {

/// One decoded market-data unit.
///
/// `price_bits` and `volume_bits` hold the IEEE 754 binary64 bit patterns of
/// the price and the volume, as `to_bits` gives them. Neither is validated:
/// any pattern is carried through unchanged.
#[derive(Debug, PartialEq, Eq)]
pub struct MarketData {
    pub symbol: String,
    pub price_bits: u64,
    pub volume_bits: u64,
    pub timestamp: u64,
}

/// What a [`MarketData`] value is, mathematically.
pub struct Tick {
    pub symbol: Seq<char>,
    pub price_bits: u64,
    pub volume_bits: u64,
    pub timestamp: u64,
}

impl View for MarketData {
    type V = Tick;

    open spec fn view(&self) -> Tick {
        Tick {
            symbol: self.symbol@,
            price_bits: self.price_bits,
            volume_bits: self.volume_bits,
            timestamp: self.timestamp,
        }
    }
}

impl Clone for MarketData {
    fn clone(&self) -> (copy: Self)
        ensures
            copy@ == self@,
    {
        MarketData {
            symbol: self.symbol.clone(),
            price_bits: self.price_bits,
            volume_bits: self.volume_bits,
            timestamp: self.timestamp,
        }
    }
}

/// The views of a sequence of records, in the same order.
pub open spec fn ticks(records: Seq<MarketData>) -> Seq<Tick> {
    records.map_values(|r: MarketData| r@)
}

} // verus!
