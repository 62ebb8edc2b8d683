//! Per-record decoders and the record dispatcher: each wire record kind
//! decodes to one or two domain objects, every numeric and categorical
//! mapping pinned by the contracts.

use vstd::prelude::*;

use crate::data::{
    Bar, BarSpecification, BarType, BookOrder, Data, OrderBookDelta, OrderBookDepth10, QuoteTick,
    TradeTick, NANOSECONDS_IN_SECOND,
};
use crate::enums::{
    spec_aggressor_side, spec_book_action, spec_is_trade_msg, spec_order_side, AggregationSource,
    BarAggregation, BookAction, OrderSide, PriceType,
};
use crate::enums::{is_trade_msg, parse_aggressor_side, parse_book_action, parse_order_side};
use crate::errors::DecodeError;
use crate::identifiers::{dec_str, trade_id_from_sequence, InstrumentId};
use crate::records::{BidAskPair, MboMsg, Mbp10Msg, Mbp1Msg, OhlcvMsg, TradeMsg, WireRecord};
use crate::types::{Price, Quantity, FIXED_PRECISION, FIXED_SCALAR};

verus! {

/// The quantity a raw whole-unit wire size decodes to: the size scaled by
/// the fixed display multiplier, reinterpreted at precision 0.
pub open spec fn spec_size_quantity(size: u32) -> Quantity {
    Quantity { raw: (size * FIXED_SCALAR) as u64, precision: 0 }
}

/// Scales a wire size by the fixed display multiplier.
fn size_quantity(size: u32) -> (r: Quantity)
    ensures
        r == spec_size_quantity(size),
{
    Quantity { raw: (size as u64) * FIXED_SCALAR, precision: 0 }
}

/// What a decoded trade tick holds, given the wire fields it came from.
pub open spec fn trade_tick_post(
    instrument_id: InstrumentId,
    price_raw: i64,
    size: u32,
    side: u8,
    sequence: u32,
    ts_recv: u64,
    price_precision: u8,
    ts_init: u64,
    t: TradeTick,
) -> bool {
    &&& t.instrument_id == instrument_id
    &&& t.price == (Price { raw: price_raw, precision: price_precision })
    &&& t.size == spec_size_quantity(size)
    &&& t.aggressor_side == spec_aggressor_side(side)
    &&& t.trade_id.value@ == dec_str(sequence as nat)
    &&& t.ts_event == ts_recv
    &&& t.ts_init == ts_init
}

/// What a decoded book delta holds, given the record it came from.
pub open spec fn delta_post(
    msg: MboMsg,
    instrument_id: InstrumentId,
    price_precision: u8,
    ts_init: u64,
    d: OrderBookDelta,
) -> bool {
    &&& d.instrument_id == instrument_id
    &&& spec_book_action(msg.action) == Some(d.action)
    &&& d.order == (BookOrder {
        side: spec_order_side(msg.side),
        price: Price { raw: msg.price, precision: price_precision },
        size: spec_size_quantity(msg.size),
        order_id: msg.order_id,
    })
    &&& d.flags == msg.flags
    &&& d.sequence == msg.sequence as u64
    &&& d.ts_event == msg.ts_recv
    &&& d.ts_init == ts_init
}

/// Decodes an executed trade: always exactly one trade tick.
pub fn decode_trade_msg(
    msg: &TradeMsg,
    instrument_id: InstrumentId,
    price_precision: u8,
    ts_init: u64,
) -> (r: Result<TradeTick, DecodeError>)
    ensures
        r is Ok <==> price_precision <= FIXED_PRECISION,
        r matches Ok(t) ==> trade_tick_post(
            instrument_id,
            msg.price,
            msg.size,
            msg.side,
            msg.sequence,
            msg.ts_recv,
            price_precision,
            ts_init,
            t,
        ),
        price_precision > FIXED_PRECISION ==> r == Err::<TradeTick, DecodeError>(
            DecodeError::InvalidPrecision(price_precision),
        ),
{
    let price = Price::from_raw(msg.price, price_precision)?;
    let size = size_quantity(msg.size);
    let aggressor_side = parse_aggressor_side(msg.side);
    let trade_id = trade_id_from_sequence(msg.sequence);
    Ok(
        TradeTick {
            instrument_id,
            price,
            size,
            aggressor_side,
            trade_id,
            ts_event: msg.ts_recv,
            ts_init,
        },
    )
}

/// Decodes a book-update record. A trade-style record yields one trade tick
/// when trade inclusion is enabled and nothing when it is disabled; any
/// other record yields one book delta. Never both.
pub fn decode_mbo_msg(
    msg: &MboMsg,
    instrument_id: InstrumentId,
    price_precision: u8,
    ts_init: u64,
    include_trades: bool,
) -> (r: Result<(Option<OrderBookDelta>, Option<TradeTick>), DecodeError>)
    ensures
        ({
            let trade_like = spec_is_trade_msg(spec_order_side(msg.side), msg.action);
            &&& (r is Ok <==> {
                ||| trade_like && !include_trades
                ||| trade_like && include_trades && price_precision <= FIXED_PRECISION
                ||| !trade_like && price_precision <= FIXED_PRECISION && spec_book_action(
                    msg.action,
                ) is Some
            })
            &&& (trade_like && !include_trades ==> (r matches Ok(p) && p.0 is None && p.1 is None))
            &&& (trade_like && include_trades && price_precision <= FIXED_PRECISION ==> ({
                &&& r matches Ok(p)
                &&& p.0 is None
                &&& p.1 matches Some(t)
                &&& trade_tick_post(
                    instrument_id,
                    msg.price,
                    msg.size,
                    msg.side,
                    msg.sequence,
                    msg.ts_recv,
                    price_precision,
                    ts_init,
                    t,
                )
            }))
            &&& (trade_like && include_trades && price_precision > FIXED_PRECISION ==> r == Err::<
                (Option<OrderBookDelta>, Option<TradeTick>),
                DecodeError,
            >(DecodeError::InvalidPrecision(price_precision)))
            &&& (!trade_like && price_precision <= FIXED_PRECISION && spec_book_action(
                msg.action,
            ) is Some ==> ({
                &&& r matches Ok(p)
                &&& p.1 is None
                &&& p.0 matches Some(d)
                &&& delta_post(*msg, instrument_id, price_precision, ts_init, d)
            }))
            &&& (!trade_like && price_precision > FIXED_PRECISION ==> r == Err::<
                (Option<OrderBookDelta>, Option<TradeTick>),
                DecodeError,
            >(DecodeError::InvalidPrecision(price_precision)))
            &&& (!trade_like && price_precision <= FIXED_PRECISION && spec_book_action(
                msg.action,
            ) is None ==> r == Err::<(Option<OrderBookDelta>, Option<TradeTick>), DecodeError>(
                DecodeError::InvalidBookAction(msg.action),
            ))
        }),
{
    let side = parse_order_side(msg.side);
    if is_trade_msg(side, msg.action) {
        if include_trades {
            let price = Price::from_raw(msg.price, price_precision)?;
            let size = size_quantity(msg.size);
            let aggressor_side = parse_aggressor_side(msg.side);
            let trade_id = trade_id_from_sequence(msg.sequence);
            let trade = TradeTick {
                instrument_id,
                price,
                size,
                aggressor_side,
                trade_id,
                ts_event: msg.ts_recv,
                ts_init,
            };
            Ok((None, Some(trade)))
        } else {
            Ok((None, None))
        }
    } else {
        let price = Price::from_raw(msg.price, price_precision)?;
        let size = size_quantity(msg.size);
        let order = BookOrder { side, price, size, order_id: msg.order_id };
        let action = parse_book_action(msg.action)?;
        let delta = OrderBookDelta {
            instrument_id,
            action,
            order,
            flags: msg.flags,
            sequence: msg.sequence as u64,
            ts_event: msg.ts_recv,
            ts_init,
        };
        Ok((Some(delta), None))
    }
}

/// What a decoded top-of-book quote holds, given the record it came from.
pub open spec fn quote_post(
    msg: Mbp1Msg,
    instrument_id: InstrumentId,
    price_precision: u8,
    ts_init: u64,
    q: QuoteTick,
) -> bool {
    &&& q.instrument_id == instrument_id
    &&& q.bid_price == (Price { raw: msg.level.bid_px, precision: price_precision })
    &&& q.ask_price == (Price { raw: msg.level.ask_px, precision: price_precision })
    &&& q.bid_size == spec_size_quantity(msg.level.bid_sz)
    &&& q.ask_size == spec_size_quantity(msg.level.ask_sz)
    &&& q.ts_event == msg.ts_recv
    &&& q.ts_init == ts_init
}

/// Decodes a top-of-book snapshot: always one quote tick from the top
/// level, plus one trade tick exactly when trade inclusion is enabled and
/// the record's raw action code is `'T'` (0x54).
pub fn decode_mbp1_msg(
    msg: &Mbp1Msg,
    instrument_id: InstrumentId,
    price_precision: u8,
    ts_init: u64,
    include_trades: bool,
) -> (r: Result<(QuoteTick, Option<TradeTick>), DecodeError>)
    ensures
        r is Ok <==> price_precision <= FIXED_PRECISION,
        price_precision > FIXED_PRECISION ==> r == Err::<
            (QuoteTick, Option<TradeTick>),
            DecodeError,
        >(DecodeError::InvalidPrecision(price_precision)),
        r matches Ok(p) ==> quote_post(*msg, instrument_id, price_precision, ts_init, p.0),
        r matches Ok(p) ==> (p.1 is Some <==> include_trades && msg.action == 84),
        r matches Ok(p) ==> (p.1 matches Some(t) ==> trade_tick_post(
            instrument_id,
            msg.price,
            msg.size,
            msg.side,
            msg.sequence,
            msg.ts_recv,
            price_precision,
            ts_init,
            t,
        )),
{
    let bid_price = Price::from_raw(msg.level.bid_px, price_precision)?;
    let ask_price = Price::from_raw(msg.level.ask_px, price_precision)?;
    let bid_size = size_quantity(msg.level.bid_sz);
    let ask_size = size_quantity(msg.level.ask_sz);
    let quote = QuoteTick {
        instrument_id: instrument_id.clone(),
        bid_price,
        ask_price,
        bid_size,
        ask_size,
        ts_event: msg.ts_recv,
        ts_init,
    };

    let maybe_trade = if include_trades && msg.action == 84 {
        let price = Price::from_raw(msg.price, price_precision)?;
        let size = size_quantity(msg.size);
        let aggressor_side = parse_aggressor_side(msg.side);
        let trade_id = trade_id_from_sequence(msg.sequence);
        Some(
            TradeTick {
                instrument_id,
                price,
                size,
                aggressor_side,
                trade_id,
                ts_event: msg.ts_recv,
                ts_init,
            },
        )
    } else {
        None
    };

    Ok((quote, maybe_trade))
}

/// The synthetic bid order a depth level decodes to: side Buy, order id 0.
pub open spec fn spec_bid_order(level: BidAskPair, price_precision: u8) -> BookOrder {
    BookOrder {
        side: OrderSide::Buy,
        price: Price { raw: level.bid_px, precision: price_precision },
        size: spec_size_quantity(level.bid_sz),
        order_id: 0,
    }
}

/// The synthetic ask order a depth level decodes to: side Sell, order id 0.
pub open spec fn spec_ask_order(level: BidAskPair, price_precision: u8) -> BookOrder {
    BookOrder {
        side: OrderSide::Sell,
        price: Price { raw: level.ask_px, precision: price_precision },
        size: spec_size_quantity(level.ask_sz),
        order_id: 0,
    }
}

/// What a decoded depth snapshot holds: ten index-aligned synthetic bid and
/// ask orders and their per-level order counts.
pub open spec fn depth10_post(
    msg: Mbp10Msg,
    instrument_id: InstrumentId,
    price_precision: u8,
    ts_init: u64,
    d: OrderBookDepth10,
) -> bool {
    &&& d.wf()
    &&& d.instrument_id == instrument_id
    &&& forall|i: int|
        0 <= i < 10 ==> d.bids@[i] == spec_bid_order(#[trigger] msg.levels@[i], price_precision)
    &&& forall|i: int|
        0 <= i < 10 ==> d.asks@[i] == spec_ask_order(#[trigger] msg.levels@[i], price_precision)
    &&& forall|i: int| 0 <= i < 10 ==> d.bid_counts@[i] == (#[trigger] msg.levels@[i]).bid_ct
    &&& forall|i: int| 0 <= i < 10 ==> d.ask_counts@[i] == (#[trigger] msg.levels@[i]).ask_ct
    &&& d.flags == msg.flags
    &&& d.sequence == msg.sequence as u64
    &&& d.ts_event == msg.ts_recv
    &&& d.ts_init == ts_init
}

/// Decodes a ten-level depth snapshot. A record without exactly ten levels
/// violates a protocol invariant and fails fatally.
pub fn decode_mbp10_msg(
    msg: &Mbp10Msg,
    instrument_id: InstrumentId,
    price_precision: u8,
    ts_init: u64,
) -> (r: Result<OrderBookDepth10, DecodeError>)
    ensures
        r is Ok <==> msg.levels@.len() == 10 && price_precision <= FIXED_PRECISION,
        msg.levels@.len() != 10 ==> r == Err::<OrderBookDepth10, DecodeError>(
            DecodeError::InvalidDepthLevels,
        ),
        msg.levels@.len() == 10 && price_precision > FIXED_PRECISION ==> r == Err::<
            OrderBookDepth10,
            DecodeError,
        >(DecodeError::InvalidPrecision(price_precision)),
        r matches Ok(d) ==> depth10_post(*msg, instrument_id, price_precision, ts_init, d),
{
    if msg.levels.len() != 10 {
        return Err(DecodeError::InvalidDepthLevels);
    }
    if price_precision > FIXED_PRECISION {
        return Err(DecodeError::InvalidPrecision(price_precision));
    }
    let mut bids: Vec<BookOrder> = Vec::new();
    let mut asks: Vec<BookOrder> = Vec::new();
    let mut bid_counts: Vec<u32> = Vec::new();
    let mut ask_counts: Vec<u32> = Vec::new();

    let mut i: usize = 0;
    while i < 10
        invariant
            0 <= i <= 10,
            msg.levels@.len() == 10,
            price_precision <= FIXED_PRECISION,
            bids@.len() == i,
            asks@.len() == i,
            bid_counts@.len() == i,
            ask_counts@.len() == i,
            forall|j: int|
                0 <= j < i ==> bids@[j] == spec_bid_order(
                    #[trigger] msg.levels@[j],
                    price_precision,
                ),
            forall|j: int|
                0 <= j < i ==> asks@[j] == spec_ask_order(
                    #[trigger] msg.levels@[j],
                    price_precision,
                ),
            forall|j: int| 0 <= j < i ==> bid_counts@[j] == (#[trigger] msg.levels@[j]).bid_ct,
            forall|j: int| 0 <= j < i ==> ask_counts@[j] == (#[trigger] msg.levels@[j]).ask_ct,
        decreases 10 - i,
    {
        let level = msg.levels[i];
        let bid_price = match Price::from_raw(level.bid_px, price_precision) {
            Ok(p) => p,
            Err(_) => vstd::pervasive::unreached(),
        };
        let ask_price = match Price::from_raw(level.ask_px, price_precision) {
            Ok(p) => p,
            Err(_) => vstd::pervasive::unreached(),
        };
        let bid_order = BookOrder {
            side: OrderSide::Buy,
            price: bid_price,
            size: size_quantity(level.bid_sz),
            order_id: 0,
        };
        let ask_order = BookOrder {
            side: OrderSide::Sell,
            price: ask_price,
            size: size_quantity(level.ask_sz),
            order_id: 0,
        };
        bids.push(bid_order);
        asks.push(ask_order);
        bid_counts.push(level.bid_ct);
        ask_counts.push(level.ask_ct);
        i += 1;
    }

    Ok(
        OrderBookDepth10 {
            instrument_id,
            bids,
            asks,
            bid_counts,
            ask_counts,
            flags: msg.flags,
            sequence: msg.sequence as u64,
            ts_event: msg.ts_recv,
            ts_init,
        },
    )
}

/// Nanoseconds from a bar's open to its close, per aggregation period.
pub const BAR_CLOSE_ADJUSTMENT_1S: u64 = NANOSECONDS_IN_SECOND;

pub const BAR_CLOSE_ADJUSTMENT_1M: u64 = BAR_CLOSE_ADJUSTMENT_1S * 60;

pub const BAR_CLOSE_ADJUSTMENT_1H: u64 = BAR_CLOSE_ADJUSTMENT_1S * 60 * 60;

pub const BAR_CLOSE_ADJUSTMENT_1D: u64 = BAR_CLOSE_ADJUSTMENT_1S * 60 * 60 * 24;

/// The aggregation period a bar record's type tag names: tags 32 to 35 are
/// the 1-second, 1-minute, 1-hour and 1-day bars; any other tag is not a
/// supported bar aggregation.
pub open spec fn spec_bar_aggregation(rtype: u8) -> Option<BarAggregation> {
    if rtype == 32 {
        Some(BarAggregation::Second)
    } else if rtype == 33 {
        Some(BarAggregation::Minute)
    } else if rtype == 34 {
        Some(BarAggregation::Hour)
    } else if rtype == 35 {
        Some(BarAggregation::Day)
    } else {
        None
    }
}

/// The bar's duration in nanoseconds, for supported type tags.
pub open spec fn spec_bar_adjustment(rtype: u8) -> u64 {
    if rtype == 32 {
        BAR_CLOSE_ADJUSTMENT_1S
    } else if rtype == 33 {
        BAR_CLOSE_ADJUSTMENT_1M
    } else if rtype == 34 {
        BAR_CLOSE_ADJUSTMENT_1H
    } else {
        BAR_CLOSE_ADJUSTMENT_1D
    }
}

/// Determines which bar series an OHLCV record belongs to: a 1-second,
/// 1-minute, 1-hour or 1-day aggregation of last prices, externally
/// aggregated. An unrecognized sub-type tag fails.
pub fn decode_bar_type(msg: &OhlcvMsg, instrument_id: InstrumentId) -> (r: Result<
    BarType,
    DecodeError,
>)
    ensures
        r is Ok <==> spec_bar_aggregation(msg.hd.rtype) is Some,
        r matches Ok(bt) ==> ({
            &&& bt.instrument_id == instrument_id
            &&& bt.aggregation_source == AggregationSource::External
            &&& bt.specification.step == 1
            &&& bt.specification.price_type == PriceType::Last
            &&& spec_bar_aggregation(msg.hd.rtype) == Some(bt.specification.aggregation)
        }),
        spec_bar_aggregation(msg.hd.rtype) is None ==> r == Err::<BarType, DecodeError>(
            DecodeError::UnsupportedBarAggregation(msg.hd.rtype),
        ),
{
    let aggregation = if msg.hd.rtype == 32 {
        BarAggregation::Second
    } else if msg.hd.rtype == 33 {
        BarAggregation::Minute
    } else if msg.hd.rtype == 34 {
        BarAggregation::Hour
    } else if msg.hd.rtype == 35 {
        BarAggregation::Day
    } else {
        return Err(DecodeError::UnsupportedBarAggregation(msg.hd.rtype));
    };
    let specification = BarSpecification { step: 1, aggregation, price_type: PriceType::Last };
    Ok(
        BarType {
            instrument_id,
            specification,
            aggregation_source: AggregationSource::External,
        },
    )
}

/// The forward adjustment that moves an OHLCV record's embedded event time
/// from the bar's open to its close. An unrecognized sub-type tag fails.
pub fn decode_ts_event_adjustment(msg: &OhlcvMsg) -> (r: Result<u64, DecodeError>)
    ensures
        r is Ok <==> spec_bar_aggregation(msg.hd.rtype) is Some,
        spec_bar_aggregation(msg.hd.rtype) is Some ==> r == Ok::<u64, DecodeError>(
            spec_bar_adjustment(msg.hd.rtype),
        ),
        spec_bar_aggregation(msg.hd.rtype) is None ==> r == Err::<u64, DecodeError>(
            DecodeError::UnsupportedBarAggregation(msg.hd.rtype),
        ),
{
    if msg.hd.rtype == 32 {
        Ok(BAR_CLOSE_ADJUSTMENT_1S)
    } else if msg.hd.rtype == 33 {
        Ok(BAR_CLOSE_ADJUSTMENT_1M)
    } else if msg.hd.rtype == 34 {
        Ok(BAR_CLOSE_ADJUSTMENT_1H)
    } else if msg.hd.rtype == 35 {
        Ok(BAR_CLOSE_ADJUSTMENT_1D)
    } else {
        Err(DecodeError::UnsupportedBarAggregation(msg.hd.rtype))
    }
}

/// Truncating division by 100, as the raw OHLCV mantissas require: they
/// carry a display factor of 100 that other record kinds do not.
pub open spec fn spec_div100(x: i64) -> i64 {
    if x >= 0 {
        ((x as int) / 100) as i64
    } else {
        (0 - ((0 - x as int) / 100)) as i64
    }
}

/// Divides a raw OHLCV mantissa by its display factor.
fn div100(x: i64) -> (r: i64)
    ensures
        r == spec_div100(x),
{
    let q = x.checked_div(100);
    match q {
        Some(v) => v,
        None => vstd::pervasive::unreached(),
    }
}

/// Whether the bar timestamp arithmetic fits the 64-bit nanosecond clock:
/// the larger of the caller's init time and the record's event time, moved
/// forward by the bar duration, must not wrap.
pub open spec fn bar_ts_fits(msg: OhlcvMsg, ts_init: u64) -> bool {
    spec_bar_aggregation(msg.hd.rtype) is Some ==> (if ts_init >= msg.hd.ts_event {
        ts_init as int
    } else {
        msg.hd.ts_event as int
    }) + spec_bar_adjustment(msg.hd.rtype) <= u64::MAX
}

/// What a decoded bar holds: the close-adjusted event time, an init time no
/// earlier than the close, and OHLC mantissas divided by the display factor.
pub open spec fn bar_post(
    msg: OhlcvMsg,
    instrument_id: InstrumentId,
    price_precision: u8,
    ts_init: u64,
    b: Bar,
) -> bool {
    &&& b.bar_type.instrument_id == instrument_id
    &&& b.bar_type.aggregation_source == AggregationSource::External
    &&& b.bar_type.specification.step == 1
    &&& b.bar_type.specification.price_type == PriceType::Last
    &&& spec_bar_aggregation(msg.hd.rtype) == Some(b.bar_type.specification.aggregation)
    &&& b.open == (Price { raw: spec_div100(msg.open), precision: price_precision })
    &&& b.high == (Price { raw: spec_div100(msg.high), precision: price_precision })
    &&& b.low == (Price { raw: spec_div100(msg.low), precision: price_precision })
    &&& b.close == (Price { raw: spec_div100(msg.close), precision: price_precision })
    &&& b.volume == (Quantity { raw: (msg.volume * FIXED_SCALAR) as u64, precision: 0 })
    &&& b.ts_event == msg.hd.ts_event + spec_bar_adjustment(msg.hd.rtype)
    &&& b.ts_init == (if ts_init >= msg.hd.ts_event {
        ts_init as int
    } else {
        msg.hd.ts_event as int
    }) + spec_bar_adjustment(msg.hd.rtype)
    &&& b.ts_init >= b.ts_event
}

/// Decodes an OHLCV bar. The record's embedded event time marks the open;
/// the decoded bar's event time is the close, one bar duration later, and
/// its init time is the larger of the caller-supplied init time and the
/// open, plus that same duration — never earlier than the close.
pub fn decode_ohlcv_msg(
    msg: &OhlcvMsg,
    instrument_id: InstrumentId,
    price_precision: u8,
    ts_init: u64,
) -> (r: Result<Bar, DecodeError>)
    requires
        bar_ts_fits(*msg, ts_init),
        spec_bar_aggregation(msg.hd.rtype) is Some && price_precision <= FIXED_PRECISION
            ==> msg.volume * FIXED_SCALAR <= u64::MAX,
    ensures
        r is Ok <==> spec_bar_aggregation(msg.hd.rtype) is Some && price_precision
            <= FIXED_PRECISION,
        spec_bar_aggregation(msg.hd.rtype) is None ==> r == Err::<Bar, DecodeError>(
            DecodeError::UnsupportedBarAggregation(msg.hd.rtype),
        ),
        spec_bar_aggregation(msg.hd.rtype) is Some && price_precision > FIXED_PRECISION ==> r
            == Err::<Bar, DecodeError>(DecodeError::InvalidPrecision(price_precision)),
        r matches Ok(b) ==> bar_post(*msg, instrument_id, price_precision, ts_init, b),
{
    let bar_type = decode_bar_type(msg, instrument_id)?;
    let ts_event_adjustment = decode_ts_event_adjustment(msg)?;

    // The wire event time marks the bar's open; the domain event time is
    // its close.
    let ts_event_open = msg.hd.ts_event;
    let larger = if ts_init >= ts_event_open {
        ts_init
    } else {
        ts_event_open
    };
    let ts_event = ts_event_open + ts_event_adjustment;
    let ts_init_out = larger + ts_event_adjustment;

    let open = Price::from_raw(div100(msg.open), price_precision)?;
    let high = Price::from_raw(div100(msg.high), price_precision)?;
    let low = Price::from_raw(div100(msg.low), price_precision)?;
    let close = Price::from_raw(div100(msg.close), price_precision)?;
    let volume = Quantity { raw: msg.volume * FIXED_SCALAR, precision: 0 };

    Ok(Bar { bar_type, open, high, low, close, volume, ts_event, ts_init: ts_init_out })
}

/// The initialization timestamp a decode call uses: the caller's override
/// when one is supplied, else the record kind's own default.
pub open spec fn spec_effective_ts_init(ts_init: Option<u64>, default: u64) -> u64 {
    match ts_init {
        Some(t) => t,
        None => default,
    }
}

/// Routes a runtime-tagged record to its decoder, producing up to two
/// domain objects positionally ordered as (primary, secondary). When no
/// initialization-timestamp override is supplied, each record kind supplies
/// its own default: its receipt timestamp, or for bars the embedded event
/// timestamp. An unrecognized record-type tag is a hard error.
pub fn decode_record(
    record: &WireRecord,
    instrument_id: InstrumentId,
    price_precision: u8,
    ts_init: Option<u64>,
    include_trades: bool,
) -> (r: Result<(Option<Data>, Option<Data>), DecodeError>)
    requires
        record matches WireRecord::Ohlcv(m) ==> ({
            let ti = spec_effective_ts_init(ts_init, m.hd.ts_event);
            &&& bar_ts_fits(*m, ti)
            &&& (spec_bar_aggregation(m.hd.rtype) is Some && price_precision <= FIXED_PRECISION
                ==> m.volume * FIXED_SCALAR <= u64::MAX)
        }),
    ensures
        record matches WireRecord::Mbo(m) ==> ({
            let ti = spec_effective_ts_init(ts_init, m.ts_recv);
            let trade_like = spec_is_trade_msg(spec_order_side(m.side), m.action);
            &&& (r is Ok <==> {
                ||| trade_like && !include_trades
                ||| trade_like && include_trades && price_precision <= FIXED_PRECISION
                ||| !trade_like && price_precision <= FIXED_PRECISION && spec_book_action(
                    m.action,
                ) is Some
            })
            &&& (trade_like && !include_trades ==> (r matches Ok(p) && p.0 is None && p.1 is None))
            &&& (trade_like && include_trades && price_precision <= FIXED_PRECISION ==> ({
                &&& r matches Ok(p)
                &&& p.1 is None
                &&& p.0 matches Some(x)
                &&& x matches Data::Trade(t)
                &&& trade_tick_post(
                    instrument_id,
                    m.price,
                    m.size,
                    m.side,
                    m.sequence,
                    m.ts_recv,
                    price_precision,
                    ti,
                    t,
                )
            }))
            &&& (!trade_like && price_precision <= FIXED_PRECISION && spec_book_action(
                m.action,
            ) is Some ==> ({
                &&& r matches Ok(p)
                &&& p.1 is None
                &&& p.0 matches Some(x)
                &&& x matches Data::Delta(d)
                &&& delta_post(*m, instrument_id, price_precision, ti, d)
            }))
            &&& (trade_like && include_trades && price_precision > FIXED_PRECISION ==> r == Err::<
                (Option<Data>, Option<Data>),
                DecodeError,
            >(DecodeError::InvalidPrecision(price_precision)))
            &&& (!trade_like && price_precision > FIXED_PRECISION ==> r == Err::<
                (Option<Data>, Option<Data>),
                DecodeError,
            >(DecodeError::InvalidPrecision(price_precision)))
            &&& (!trade_like && price_precision <= FIXED_PRECISION && spec_book_action(
                m.action,
            ) is None ==> r == Err::<(Option<Data>, Option<Data>), DecodeError>(
                DecodeError::InvalidBookAction(m.action),
            ))
        }),
        record matches WireRecord::Trade(m) ==> ({
            let ti = spec_effective_ts_init(ts_init, m.ts_recv);
            &&& (r is Ok <==> price_precision <= FIXED_PRECISION)
            &&& (price_precision > FIXED_PRECISION ==> r == Err::<
                (Option<Data>, Option<Data>),
                DecodeError,
            >(DecodeError::InvalidPrecision(price_precision)))
            &&& (r matches Ok(p) ==> ({
                &&& p.1 is None
                &&& p.0 matches Some(x)
                &&& x matches Data::Trade(t)
                &&& trade_tick_post(
                    instrument_id,
                    m.price,
                    m.size,
                    m.side,
                    m.sequence,
                    m.ts_recv,
                    price_precision,
                    ti,
                    t,
                )
            }))
        }),
        record matches WireRecord::Mbp1(m) ==> ({
            let ti = spec_effective_ts_init(ts_init, m.ts_recv);
            &&& (r is Ok <==> price_precision <= FIXED_PRECISION)
            &&& (price_precision > FIXED_PRECISION ==> r == Err::<
                (Option<Data>, Option<Data>),
                DecodeError,
            >(DecodeError::InvalidPrecision(price_precision)))
            &&& (r matches Ok(p) ==> ({
                &&& p.0 matches Some(x)
                &&& x matches Data::Quote(q)
                &&& quote_post(*m, instrument_id, price_precision, ti, q)
            }))
            &&& (r matches Ok(p) ==> (p.1 is Some <==> include_trades && m.action == 84))
            &&& (r matches Ok(p) ==> (p.1 matches Some(y) ==> ({
                &&& y matches Data::Trade(t)
                &&& trade_tick_post(
                    instrument_id,
                    m.price,
                    m.size,
                    m.side,
                    m.sequence,
                    m.ts_recv,
                    price_precision,
                    ti,
                    t,
                )
            })))
        }),
        record matches WireRecord::Mbp10(m) ==> ({
            let ti = spec_effective_ts_init(ts_init, m.ts_recv);
            &&& (r is Ok <==> m.levels@.len() == 10 && price_precision <= FIXED_PRECISION)
            &&& (m.levels@.len() != 10 ==> r == Err::<(Option<Data>, Option<Data>), DecodeError>(
                DecodeError::InvalidDepthLevels,
            ))
            &&& (m.levels@.len() == 10 && price_precision > FIXED_PRECISION ==> r == Err::<
                (Option<Data>, Option<Data>),
                DecodeError,
            >(DecodeError::InvalidPrecision(price_precision)))
            &&& (r matches Ok(p) ==> ({
                &&& p.1 is None
                &&& p.0 matches Some(x)
                &&& x matches Data::Depth10(d)
                &&& depth10_post(*m, instrument_id, price_precision, ti, d)
            }))
        }),
        record matches WireRecord::Ohlcv(m) ==> ({
            let ti = spec_effective_ts_init(ts_init, m.hd.ts_event);
            &&& (r is Ok <==> spec_bar_aggregation(m.hd.rtype) is Some && price_precision
                <= FIXED_PRECISION)
            &&& (spec_bar_aggregation(m.hd.rtype) is None ==> r == Err::<
                (Option<Data>, Option<Data>),
                DecodeError,
            >(DecodeError::UnsupportedBarAggregation(m.hd.rtype)))
            &&& (spec_bar_aggregation(m.hd.rtype) is Some && price_precision > FIXED_PRECISION
                ==> r == Err::<(Option<Data>, Option<Data>), DecodeError>(
                DecodeError::InvalidPrecision(price_precision),
            ))
            &&& (r matches Ok(p) ==> ({
                &&& p.1 is None
                &&& p.0 matches Some(x)
                &&& x matches Data::Bar(b)
                &&& bar_post(*m, instrument_id, price_precision, ti, b)
            }))
        }),
        record matches WireRecord::Unsupported(tag) ==> r == Err::<
            (Option<Data>, Option<Data>),
            DecodeError,
        >(DecodeError::UnsupportedRecordType(*tag)),
{
    match record {
        WireRecord::Mbo(msg) => {
            let ti = match ts_init {
                Some(t) => t,
                None => msg.ts_recv,
            };
            let result = decode_mbo_msg(msg, instrument_id, price_precision, ti, include_trades)?;
            match result {
                (Some(delta), None) => Ok((Some(Data::Delta(delta)), None)),
                (None, Some(trade)) => Ok((Some(Data::Trade(trade)), None)),
                (None, None) => Ok((None, None)),
                (Some(_), Some(_)) => vstd::pervasive::unreached(),
            }
        },
        WireRecord::Trade(msg) => {
            let ti = match ts_init {
                Some(t) => t,
                None => msg.ts_recv,
            };
            let trade = decode_trade_msg(msg, instrument_id, price_precision, ti)?;
            Ok((Some(Data::Trade(trade)), None))
        },
        WireRecord::Mbp1(msg) => {
            let ti = match ts_init {
                Some(t) => t,
                None => msg.ts_recv,
            };
            let result = decode_mbp1_msg(
                msg,
                instrument_id,
                price_precision,
                ti,
                include_trades,
            )?;
            match result {
                (quote, None) => Ok((Some(Data::Quote(quote)), None)),
                (quote, Some(trade)) => Ok(
                    (Some(Data::Quote(quote)), Some(Data::Trade(trade))),
                ),
            }
        },
        WireRecord::Mbp10(msg) => {
            let ti = match ts_init {
                Some(t) => t,
                None => msg.ts_recv,
            };
            let depth = decode_mbp10_msg(msg, instrument_id, price_precision, ti)?;
            Ok((Some(Data::Depth10(depth)), None))
        },
        WireRecord::Ohlcv(msg) => {
            let ti = match ts_init {
                Some(t) => t,
                None => msg.hd.ts_event,
            };
            let bar = decode_ohlcv_msg(msg, instrument_id, price_precision, ti)?;
            Ok((Some(Data::Bar(bar)), None))
        },
        WireRecord::Unsupported(tag) => Err(DecodeError::UnsupportedRecordType(*tag)),
    }
}

/// Decoding is deterministic: two trade ticks decoded from the same wire
/// fields with identical arguments are structurally equal. No hidden state
/// affects a decode.
pub proof fn lemma_trade_decode_deterministic(
    instrument_id: InstrumentId,
    price_raw: i64,
    size: u32,
    side: u8,
    sequence: u32,
    ts_recv: u64,
    price_precision: u8,
    ts_init: u64,
    t1: TradeTick,
    t2: TradeTick,
)
    requires
        trade_tick_post(
            instrument_id,
            price_raw,
            size,
            side,
            sequence,
            ts_recv,
            price_precision,
            ts_init,
            t1,
        ),
        trade_tick_post(
            instrument_id,
            price_raw,
            size,
            side,
            sequence,
            ts_recv,
            price_precision,
            ts_init,
            t2,
        ),
    ensures
        crate::data::trade_equiv(t1, t2),
{
}

/// Decoding is deterministic: two book deltas decoded from the same record
/// with identical arguments are structurally equal.
pub proof fn lemma_delta_decode_deterministic(
    msg: MboMsg,
    instrument_id: InstrumentId,
    price_precision: u8,
    ts_init: u64,
    d1: OrderBookDelta,
    d2: OrderBookDelta,
)
    requires
        delta_post(msg, instrument_id, price_precision, ts_init, d1),
        delta_post(msg, instrument_id, price_precision, ts_init, d2),
    ensures
        crate::data::delta_equiv(d1, d2),
{
}

/// Decoding is deterministic: two quote ticks decoded from the same record
/// with identical arguments are structurally equal.
pub proof fn lemma_quote_decode_deterministic(
    msg: Mbp1Msg,
    instrument_id: InstrumentId,
    price_precision: u8,
    ts_init: u64,
    q1: QuoteTick,
    q2: QuoteTick,
)
    requires
        quote_post(msg, instrument_id, price_precision, ts_init, q1),
        quote_post(msg, instrument_id, price_precision, ts_init, q2),
    ensures
        crate::data::quote_equiv(q1, q2),
{
}

/// Decoding is deterministic: two depth snapshots decoded from the same
/// record with identical arguments are structurally equal.
pub proof fn lemma_depth10_decode_deterministic(
    msg: Mbp10Msg,
    instrument_id: InstrumentId,
    price_precision: u8,
    ts_init: u64,
    d1: OrderBookDepth10,
    d2: OrderBookDepth10,
)
    requires
        depth10_post(msg, instrument_id, price_precision, ts_init, d1),
        depth10_post(msg, instrument_id, price_precision, ts_init, d2),
    ensures
        crate::data::depth10_equiv(d1, d2),
{
    assert forall|i: int| 0 <= i < 10 implies d1.bids@[i] == d2.bids@[i] && d1.asks@[i]
        == d2.asks@[i] && d1.bid_counts@[i] == d2.bid_counts@[i] && d1.ask_counts@[i]
        == d2.ask_counts@[i] by {
        let level = msg.levels@[i];
        assert(d1.bids@[i] == spec_bid_order(level, price_precision));
        assert(d2.bids@[i] == spec_bid_order(level, price_precision));
        assert(d1.asks@[i] == spec_ask_order(level, price_precision));
        assert(d2.asks@[i] == spec_ask_order(level, price_precision));
    }
    assert(d1.bids@ =~= d2.bids@);
    assert(d1.asks@ =~= d2.asks@);
    assert(d1.bid_counts@ =~= d2.bid_counts@);
    assert(d1.ask_counts@ =~= d2.ask_counts@);
}

/// Decoding is deterministic: two bars decoded from the same record with
/// identical arguments are structurally equal.
pub proof fn lemma_bar_decode_deterministic(
    msg: OhlcvMsg,
    instrument_id: InstrumentId,
    price_precision: u8,
    ts_init: u64,
    b1: Bar,
    b2: Bar,
)
    requires
        bar_post(msg, instrument_id, price_precision, ts_init, b1),
        bar_post(msg, instrument_id, price_precision, ts_init, b2),
    ensures
        crate::data::bar_equiv(b1, b2),
{
}

} // verus!
