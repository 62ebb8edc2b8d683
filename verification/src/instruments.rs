//! The instrument domain model: a closed union of five variants.

use vstd::prelude::*;

use crate::enums::{AssetClass, OptionKind};
use crate::identifiers::{instrument_id_equiv, InstrumentId};
use crate::types::{Currency, Price, Quantity};

verus! {

/// A cash equity.
#[derive(Debug)]
pub struct Equity {
    pub id: InstrumentId,
    pub raw_symbol: String,
    pub isin: Option<String>,
    pub currency: Currency,
    pub price_precision: u8,
    pub price_increment: Price,
    pub lot_size: Option<Quantity>,
    pub ts_event: u64,
    pub ts_init: u64,
}

/// A deliverable or cash-settled futures contract.
#[derive(Debug)]
pub struct FuturesContract {
    pub id: InstrumentId,
    pub raw_symbol: String,
    pub asset_class: AssetClass,
    pub underlying: String,
    pub activation: u64,
    pub expiration: u64,
    pub currency: Currency,
    pub price_precision: u8,
    pub price_increment: Price,
    pub multiplier: Quantity,
    pub lot_size: Quantity,
    pub ts_event: u64,
    pub ts_init: u64,
}

/// A strategy over futures contracts.
#[derive(Debug)]
pub struct FuturesSpread {
    pub id: InstrumentId,
    pub raw_symbol: String,
    pub asset_class: AssetClass,
    pub underlying: String,
    pub strategy_type: String,
    pub activation: u64,
    pub expiration: u64,
    pub currency: Currency,
    pub price_precision: u8,
    pub price_increment: Price,
    pub multiplier: Quantity,
    pub lot_size: Quantity,
    pub ts_event: u64,
    pub ts_init: u64,
}

/// A call or put option.
#[derive(Debug)]
pub struct OptionsContract {
    pub id: InstrumentId,
    pub raw_symbol: String,
    pub asset_class: AssetClass,
    pub underlying: String,
    pub option_kind: OptionKind,
    pub activation: u64,
    pub expiration: u64,
    pub strike_price: Price,
    pub currency: Currency,
    pub price_precision: u8,
    pub price_increment: Price,
    pub multiplier: Quantity,
    pub lot_size: Quantity,
    pub ts_event: u64,
    pub ts_init: u64,
}

/// A strategy over options contracts.
#[derive(Debug)]
pub struct OptionsSpread {
    pub id: InstrumentId,
    pub raw_symbol: String,
    pub asset_class: AssetClass,
    pub underlying: String,
    pub strategy_type: String,
    pub activation: u64,
    pub expiration: u64,
    pub currency: Currency,
    pub price_precision: u8,
    pub price_increment: Price,
    pub multiplier: Quantity,
    pub lot_size: Quantity,
    pub ts_event: u64,
    pub ts_init: u64,
}

/// Any decoded instrument: the closed set of variants an instrument-class
/// code can produce.
#[derive(Debug)]
pub enum Instrument {
    Equity(Equity),
    FuturesContract(FuturesContract),
    FuturesSpread(FuturesSpread),
    OptionsContract(OptionsContract),
    OptionsSpread(OptionsSpread),
}

/// Structural equality of equities.
pub open spec fn equity_equiv(a: Equity, b: Equity) -> bool {
    &&& instrument_id_equiv(a.id, b.id)
    &&& a.raw_symbol@ == b.raw_symbol@
    &&& a.isin is None == b.isin is None
    &&& a.currency == b.currency
    &&& a.price_precision == b.price_precision
    &&& a.price_increment == b.price_increment
    &&& a.lot_size == b.lot_size
    &&& a.ts_event == b.ts_event
    &&& a.ts_init == b.ts_init
}

/// Structural equality of futures contracts.
pub open spec fn futures_contract_equiv(a: FuturesContract, b: FuturesContract) -> bool {
    &&& instrument_id_equiv(a.id, b.id)
    &&& a.raw_symbol@ == b.raw_symbol@
    &&& a.asset_class == b.asset_class
    &&& a.underlying@ == b.underlying@
    &&& a.activation == b.activation
    &&& a.expiration == b.expiration
    &&& a.currency == b.currency
    &&& a.price_precision == b.price_precision
    &&& a.price_increment == b.price_increment
    &&& a.multiplier == b.multiplier
    &&& a.lot_size == b.lot_size
    &&& a.ts_event == b.ts_event
    &&& a.ts_init == b.ts_init
}

/// Structural equality of futures spreads.
pub open spec fn futures_spread_equiv(a: FuturesSpread, b: FuturesSpread) -> bool {
    &&& instrument_id_equiv(a.id, b.id)
    &&& a.raw_symbol@ == b.raw_symbol@
    &&& a.asset_class == b.asset_class
    &&& a.underlying@ == b.underlying@
    &&& a.strategy_type@ == b.strategy_type@
    &&& a.activation == b.activation
    &&& a.expiration == b.expiration
    &&& a.currency == b.currency
    &&& a.price_precision == b.price_precision
    &&& a.price_increment == b.price_increment
    &&& a.multiplier == b.multiplier
    &&& a.lot_size == b.lot_size
    &&& a.ts_event == b.ts_event
    &&& a.ts_init == b.ts_init
}

/// Structural equality of options contracts.
pub open spec fn options_contract_equiv(a: OptionsContract, b: OptionsContract) -> bool {
    &&& instrument_id_equiv(a.id, b.id)
    &&& a.raw_symbol@ == b.raw_symbol@
    &&& a.asset_class == b.asset_class
    &&& a.underlying@ == b.underlying@
    &&& a.option_kind == b.option_kind
    &&& a.activation == b.activation
    &&& a.expiration == b.expiration
    &&& a.strike_price == b.strike_price
    &&& a.currency == b.currency
    &&& a.price_precision == b.price_precision
    &&& a.price_increment == b.price_increment
    &&& a.multiplier == b.multiplier
    &&& a.lot_size == b.lot_size
    &&& a.ts_event == b.ts_event
    &&& a.ts_init == b.ts_init
}

/// Structural equality of options spreads.
pub open spec fn options_spread_equiv(a: OptionsSpread, b: OptionsSpread) -> bool {
    &&& instrument_id_equiv(a.id, b.id)
    &&& a.raw_symbol@ == b.raw_symbol@
    &&& a.asset_class == b.asset_class
    &&& a.underlying@ == b.underlying@
    &&& a.strategy_type@ == b.strategy_type@
    &&& a.activation == b.activation
    &&& a.expiration == b.expiration
    &&& a.currency == b.currency
    &&& a.price_precision == b.price_precision
    &&& a.price_increment == b.price_increment
    &&& a.multiplier == b.multiplier
    &&& a.lot_size == b.lot_size
    &&& a.ts_event == b.ts_event
    &&& a.ts_init == b.ts_init
}

} // verus!
