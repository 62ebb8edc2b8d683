//! The uniform domain model decoders produce: book deltas, trades, quotes,
//! depth snapshots and bars.

use vstd::prelude::*;

use crate::enums::{
    AggregationSource, AggressorSide, BarAggregation, BookAction, OrderSide, PriceType,
};
use crate::identifiers::{instrument_id_equiv, InstrumentId, TradeId};
use crate::types::{Price, Quantity};

verus! {

/// Nanoseconds in one second.
pub const NANOSECONDS_IN_SECOND: u64 = 1_000_000_000;

/// One order at a price level.
#[derive(Clone, Copy, Debug, PartialEq, Eq, Structural)]
pub struct BookOrder {
    pub side: OrderSide,
    pub price: Price,
    pub size: Quantity,
    pub order_id: u64,
}

/// One book mutation.
#[derive(Debug)]
pub struct OrderBookDelta {
    pub instrument_id: InstrumentId,
    pub action: BookAction,
    pub order: BookOrder,
    pub flags: u8,
    pub sequence: u64,
    pub ts_event: u64,
    pub ts_init: u64,
}

/// An executed trade.
#[derive(Debug)]
pub struct TradeTick {
    pub instrument_id: InstrumentId,
    pub price: Price,
    pub size: Quantity,
    pub aggressor_side: AggressorSide,
    pub trade_id: TradeId,
    pub ts_event: u64,
    pub ts_init: u64,
}

/// A top-of-book snapshot.
#[derive(Debug)]
pub struct QuoteTick {
    pub instrument_id: InstrumentId,
    pub bid_price: Price,
    pub ask_price: Price,
    pub bid_size: Quantity,
    pub ask_size: Quantity,
    pub ts_event: u64,
    pub ts_init: u64,
}

/// A fixed ten-level depth snapshot. Index `i` of bids, asks and the two
/// count arrays refers to the same price level.
#[derive(Debug)]
pub struct OrderBookDepth10 {
    pub instrument_id: InstrumentId,
    pub bids: Vec<BookOrder>,
    pub asks: Vec<BookOrder>,
    pub bid_counts: Vec<u32>,
    pub ask_counts: Vec<u32>,
    pub flags: u8,
    pub sequence: u64,
    pub ts_event: u64,
    pub ts_init: u64,
}

impl OrderBookDepth10 {
    /// All four arrays hold exactly ten entries.
    pub open spec fn wf(self) -> bool {
        &&& self.bids@.len() == 10
        &&& self.asks@.len() == 10
        &&& self.bid_counts@.len() == 10
        &&& self.ask_counts@.len() == 10
    }
}

/// How a bar aggregates: step count, period, and price series.
#[derive(Clone, Copy, Debug, PartialEq, Eq, Structural)]
pub struct BarSpecification {
    pub step: usize,
    pub aggregation: BarAggregation,
    pub price_type: PriceType,
}

/// Which bar series a bar belongs to: instrument, specification, source.
#[derive(Debug)]
pub struct BarType {
    pub instrument_id: InstrumentId,
    pub specification: BarSpecification,
    pub aggregation_source: AggregationSource,
}

/// An OHLC aggregate whose event timestamp marks the bar's close.
#[derive(Debug)]
pub struct Bar {
    pub bar_type: BarType,
    pub open: Price,
    pub high: Price,
    pub low: Price,
    pub close: Price,
    pub volume: Quantity,
    pub ts_event: u64,
    pub ts_init: u64,
}

/// Any decoded market-data object.
#[derive(Debug)]
pub enum Data {
    Delta(OrderBookDelta),
    Trade(TradeTick),
    Quote(QuoteTick),
    Depth10(OrderBookDepth10),
    Bar(Bar),
}

/// Structural equality of deltas.
pub open spec fn delta_equiv(a: OrderBookDelta, b: OrderBookDelta) -> bool {
    &&& instrument_id_equiv(a.instrument_id, b.instrument_id)
    &&& a.action == b.action
    &&& a.order == b.order
    &&& a.flags == b.flags
    &&& a.sequence == b.sequence
    &&& a.ts_event == b.ts_event
    &&& a.ts_init == b.ts_init
}

/// Structural equality of trades.
pub open spec fn trade_equiv(a: TradeTick, b: TradeTick) -> bool {
    &&& instrument_id_equiv(a.instrument_id, b.instrument_id)
    &&& a.price == b.price
    &&& a.size == b.size
    &&& a.aggressor_side == b.aggressor_side
    &&& a.trade_id.value@ == b.trade_id.value@
    &&& a.ts_event == b.ts_event
    &&& a.ts_init == b.ts_init
}

/// Structural equality of quotes.
pub open spec fn quote_equiv(a: QuoteTick, b: QuoteTick) -> bool {
    &&& instrument_id_equiv(a.instrument_id, b.instrument_id)
    &&& a.bid_price == b.bid_price
    &&& a.ask_price == b.ask_price
    &&& a.bid_size == b.bid_size
    &&& a.ask_size == b.ask_size
    &&& a.ts_event == b.ts_event
    &&& a.ts_init == b.ts_init
}

/// Structural equality of depth snapshots.
pub open spec fn depth10_equiv(a: OrderBookDepth10, b: OrderBookDepth10) -> bool {
    &&& instrument_id_equiv(a.instrument_id, b.instrument_id)
    &&& a.bids@ == b.bids@
    &&& a.asks@ == b.asks@
    &&& a.bid_counts@ == b.bid_counts@
    &&& a.ask_counts@ == b.ask_counts@
    &&& a.flags == b.flags
    &&& a.sequence == b.sequence
    &&& a.ts_event == b.ts_event
    &&& a.ts_init == b.ts_init
}

/// Structural equality of bars.
pub open spec fn bar_equiv(a: Bar, b: Bar) -> bool {
    &&& instrument_id_equiv(a.bar_type.instrument_id, b.bar_type.instrument_id)
    &&& a.bar_type.specification == b.bar_type.specification
    &&& a.bar_type.aggregation_source == b.bar_type.aggregation_source
    &&& a.open == b.open
    &&& a.high == b.high
    &&& a.low == b.low
    &&& a.close == b.close
    &&& a.volume == b.volume
    &&& a.ts_event == b.ts_event
    &&& a.ts_init == b.ts_init
}

} // verus!
