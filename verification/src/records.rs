//! Models of the wire records this layer consumes: already-parsed,
//! memory-resident record structures, holding as plain values exactly the
//! fields the decoders read. Embedded text lives in fixed-capacity byte
//! buffers whose logical end is the first NUL.

use vstd::prelude::*;

verus! {

/// The common record header: the record-type tag and the intrinsic event
/// timestamp in nanoseconds since the UNIX epoch.
#[derive(Clone, Copy, Debug, PartialEq, Eq, Structural)]
pub struct RecordHeader {
    pub rtype: u8,
    pub ts_event: u64,
}

/// A market-by-order event: one order add/modify/cancel/trade.
#[derive(Clone, Copy, Debug, PartialEq, Eq, Structural)]
pub struct MboMsg {
    pub order_id: u64,
    pub price: i64,
    pub size: u32,
    pub flags: u8,
    pub action: u8,
    pub side: u8,
    pub ts_recv: u64,
    pub sequence: u32,
}

/// An executed trade.
#[derive(Clone, Copy, Debug, PartialEq, Eq, Structural)]
pub struct TradeMsg {
    pub price: i64,
    pub size: u32,
    pub side: u8,
    pub ts_recv: u64,
    pub sequence: u32,
}

/// One price level: bid and ask price, size and order count.
#[derive(Clone, Copy, Debug, PartialEq, Eq, Structural)]
pub struct BidAskPair {
    pub bid_px: i64,
    pub ask_px: i64,
    pub bid_sz: u32,
    pub ask_sz: u32,
    pub bid_ct: u32,
    pub ask_ct: u32,
}

/// A top-of-book snapshot, optionally carrying the trade that caused it.
#[derive(Clone, Copy, Debug, PartialEq, Eq, Structural)]
pub struct Mbp1Msg {
    pub price: i64,
    pub size: u32,
    pub action: u8,
    pub side: u8,
    pub ts_recv: u64,
    pub sequence: u32,
    pub level: BidAskPair,
}

/// A depth snapshot; the protocol guarantees exactly ten levels, and a
/// record violating that arity fails to decode.
#[derive(Debug)]
pub struct Mbp10Msg {
    pub levels: Vec<BidAskPair>,
    pub flags: u8,
    pub ts_recv: u64,
    pub sequence: u32,
}

/// An OHLCV bar whose header tag names the aggregation period and whose
/// embedded event timestamp marks the bar's open.
#[derive(Clone, Copy, Debug, PartialEq, Eq, Structural)]
pub struct OhlcvMsg {
    pub hd: RecordHeader,
    pub open: i64,
    pub high: i64,
    pub low: i64,
    pub close: i64,
    pub volume: u64,
}

/// An instrument definition in the current wire schema.
#[derive(Debug)]
pub struct InstrumentDefMsg {
    pub ts_recv: u64,
    pub min_price_increment: i64,
    pub activation: u64,
    pub expiration: u64,
    pub min_lot_size_round_lot: i32,
    pub strike_price: i64,
    pub instrument_class: u8,
    pub currency: Vec<u8>,
    pub cfi: Vec<u8>,
    pub asset: Vec<u8>,
    pub underlying: Vec<u8>,
    pub secsubtype: Vec<u8>,
}

/// An instrument definition in the legacy wire schema. The legacy layout
/// differs from the current one only in field placement and buffer
/// capacities, not in decode semantics; the two decoders stay separate
/// because the wire shapes are genuinely different.
#[derive(Debug)]
pub struct InstrumentDefMsgV1 {
    pub ts_recv: u64,
    pub min_price_increment: i64,
    pub activation: u64,
    pub expiration: u64,
    pub min_lot_size_round_lot: i32,
    pub strike_price: i64,
    pub instrument_class: u8,
    pub currency: Vec<u8>,
    pub cfi: Vec<u8>,
    pub asset: Vec<u8>,
    pub underlying: Vec<u8>,
    pub secsubtype: Vec<u8>,
}

/// A runtime-tagged record, as the dispatcher sees it: one variant per
/// record kind this layer understands, and the raw tag of any other.
#[derive(Debug)]
pub enum WireRecord {
    Mbo(MboMsg),
    Trade(TradeMsg),
    Mbp1(Mbp1Msg),
    Mbp10(Mbp10Msg),
    Ohlcv(OhlcvMsg),
    Unsupported(u8),
}

} // verus!
