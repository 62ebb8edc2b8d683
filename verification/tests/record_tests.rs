//! Tests for the per-record decoders and the record dispatcher.

use databento_decode::data::Data;
use databento_decode::decode::{
    decode_bar_type, decode_mbo_msg, decode_mbp10_msg, decode_mbp1_msg, decode_ohlcv_msg,
    decode_record, decode_trade_msg, decode_ts_event_adjustment,
};
use databento_decode::enums::{
    AggregationSource, AggressorSide, BarAggregation, BookAction, OrderSide, PriceType,
};
use databento_decode::errors::DecodeError;
use databento_decode::identifiers::InstrumentId;
use databento_decode::records::{
    BidAskPair, MboMsg, Mbp10Msg, Mbp1Msg, OhlcvMsg, RecordHeader, TradeMsg, WireRecord,
};

fn test_id() -> InstrumentId {
    InstrumentId::new("ESM4".to_string(), "GLBX".to_string())
}

fn sample_mbo(side: u8, action: u8) -> MboMsg {
    MboMsg {
        order_id: 7777,
        price: 1_234_500,
        size: 3,
        flags: 130,
        action,
        side,
        ts_recv: 1_000_000,
        sequence: 42,
    }
}

fn sample_level() -> BidAskPair {
    BidAskPair {
        bid_px: 100_000,
        ask_px: 100_100,
        bid_sz: 5,
        ask_sz: 7,
        bid_ct: 2,
        ask_ct: 3,
    }
}

#[test]
fn trade_msg_decodes_one_trade() {
    let msg = TradeMsg {
        price: 555_000,
        size: 10,
        side: b'A',
        ts_recv: 123_456,
        sequence: 987_654_321,
    };
    let trade = decode_trade_msg(&msg, test_id(), 2, 42).unwrap();
    assert_eq!(trade.price.raw, 555_000);
    assert_eq!(trade.price.precision, 2);
    assert_eq!(trade.size.raw, 10 * 1_000_000_000);
    assert_eq!(trade.size.precision, 0);
    assert_eq!(trade.aggressor_side, AggressorSide::Seller);
    assert_eq!(trade.trade_id.value, "987654321");
    assert_eq!(trade.ts_event, 123_456);
    assert_eq!(trade.ts_init, 42);
    assert_eq!(trade.instrument_id.symbol, "ESM4");
}

#[test]
fn trade_msg_rejects_bad_precision() {
    let msg = TradeMsg {
        price: 1,
        size: 1,
        side: b'B',
        ts_recv: 0,
        sequence: 0,
    };
    assert!(matches!(
        decode_trade_msg(&msg, test_id(), 10, 0),
        Err(DecodeError::InvalidPrecision(10))
    ));
}

#[test]
fn mbo_trade_like_with_trades_enabled_yields_only_trade() {
    // Neutral side makes the record trade-like.
    let msg = sample_mbo(b'N', b'T');
    let (delta, trade) = decode_mbo_msg(&msg, test_id(), 2, 5, true).unwrap();
    assert!(delta.is_none());
    let trade = trade.unwrap();
    assert_eq!(trade.trade_id.value, "42");
    assert_eq!(trade.aggressor_side, AggressorSide::NoAggressor);
    assert_eq!(trade.price.raw, 1_234_500);
}

#[test]
fn mbo_trade_like_with_trades_disabled_yields_nothing() {
    let msg = sample_mbo(b'N', b'T');
    let (delta, trade) = decode_mbo_msg(&msg, test_id(), 2, 5, false).unwrap();
    assert!(delta.is_none());
    assert!(trade.is_none());
}

#[test]
fn mbo_book_record_yields_only_delta() {
    let msg = sample_mbo(b'B', b'A');
    for include_trades in [false, true] {
        let (delta, trade) =
            decode_mbo_msg(&msg, test_id(), 2, 5, include_trades).unwrap();
        assert!(trade.is_none());
        let delta = delta.unwrap();
        assert_eq!(delta.action, BookAction::Add);
        assert_eq!(delta.order.side, OrderSide::Buy);
        assert_eq!(delta.order.price.raw, 1_234_500);
        assert_eq!(delta.order.size.raw, 3_000_000_000);
        assert_eq!(delta.order.order_id, 7777);
        assert_eq!(delta.flags, 130);
        assert_eq!(delta.sequence, 42);
        assert_eq!(delta.ts_event, 1_000_000);
        assert_eq!(delta.ts_init, 5);
    }
}

#[test]
fn mbo_action_t_is_trade_like_even_with_a_side() {
    let msg = sample_mbo(b'A', b'T');
    let (delta, trade) = decode_mbo_msg(&msg, test_id(), 2, 5, true).unwrap();
    assert!(delta.is_none());
    assert_eq!(trade.unwrap().aggressor_side, AggressorSide::Seller);
}

#[test]
fn mbo_unknown_action_fails() {
    let msg = sample_mbo(b'B', b'Z');
    assert!(matches!(
        decode_mbo_msg(&msg, test_id(), 2, 5, true),
        Err(DecodeError::InvalidBookAction(b'Z'))
    ));
}

#[test]
fn mbp1_always_yields_quote() {
    let msg = Mbp1Msg {
        price: 100_050,
        size: 1,
        action: b'A',
        side: b'B',
        ts_recv: 777,
        sequence: 9,
        level: sample_level(),
    };
    let (quote, trade) = decode_mbp1_msg(&msg, test_id(), 2, 3, true).unwrap();
    assert_eq!(quote.bid_price.raw, 100_000);
    assert_eq!(quote.ask_price.raw, 100_100);
    assert_eq!(quote.bid_size.raw, 5_000_000_000);
    assert_eq!(quote.ask_size.raw, 7_000_000_000);
    assert_eq!(quote.ts_event, 777);
    assert_eq!(quote.ts_init, 3);
    assert!(trade.is_none());
}

#[test]
fn mbp1_trade_slot_filled_only_for_action_t_with_trades_enabled() {
    let mut msg = Mbp1Msg {
        price: 100_050,
        size: 2,
        action: b'T',
        side: b'B',
        ts_recv: 777,
        sequence: 9,
        level: sample_level(),
    };
    let (_, trade) = decode_mbp1_msg(&msg, test_id(), 2, 3, true).unwrap();
    let trade = trade.unwrap();
    assert_eq!(trade.price.raw, 100_050);
    assert_eq!(trade.aggressor_side, AggressorSide::Buyer);
    assert_eq!(trade.trade_id.value, "9");

    let (_, trade) = decode_mbp1_msg(&msg, test_id(), 2, 3, false).unwrap();
    assert!(trade.is_none());

    msg.action = b'A';
    let (_, trade) = decode_mbp1_msg(&msg, test_id(), 2, 3, true).unwrap();
    assert!(trade.is_none());
}

#[test]
fn mbp10_with_ten_levels_yields_aligned_arrays() {
    let mut levels = Vec::new();
    for i in 0..10i64 {
        levels.push(BidAskPair {
            bid_px: 1000 - i,
            ask_px: 1001 + i,
            bid_sz: 10 + i as u32,
            ask_sz: 20 + i as u32,
            bid_ct: 1 + i as u32,
            ask_ct: 2 + i as u32,
        });
    }
    let msg = Mbp10Msg {
        levels,
        flags: 128,
        ts_recv: 999,
        sequence: 4,
    };
    let depth = decode_mbp10_msg(&msg, test_id(), 2, 8).unwrap();
    assert_eq!(depth.bids.len(), 10);
    assert_eq!(depth.asks.len(), 10);
    assert_eq!(depth.bid_counts.len(), 10);
    assert_eq!(depth.ask_counts.len(), 10);
    for i in 0..10usize {
        assert_eq!(depth.bids[i].side, OrderSide::Buy);
        assert_eq!(depth.asks[i].side, OrderSide::Sell);
        assert_eq!(depth.bids[i].price.raw, 1000 - i as i64);
        assert_eq!(depth.asks[i].price.raw, 1001 + i as i64);
        assert_eq!(depth.bids[i].size.raw, (10 + i as u64) * 1_000_000_000);
        assert_eq!(depth.asks[i].size.raw, (20 + i as u64) * 1_000_000_000);
        assert_eq!(depth.bids[i].order_id, 0);
        assert_eq!(depth.asks[i].order_id, 0);
        assert_eq!(depth.bid_counts[i], 1 + i as u32);
        assert_eq!(depth.ask_counts[i], 2 + i as u32);
    }
    assert_eq!(depth.flags, 128);
    assert_eq!(depth.sequence, 4);
}

#[test]
fn mbp10_with_fewer_levels_fails() {
    let levels = vec![sample_level(); 9];
    let msg = Mbp10Msg {
        levels,
        flags: 0,
        ts_recv: 0,
        sequence: 0,
    };
    assert!(matches!(
        decode_mbp10_msg(&msg, test_id(), 2, 0),
        Err(DecodeError::InvalidDepthLevels)
    ));
}

#[test]
fn mbp10_with_more_levels_fails() {
    let levels = vec![sample_level(); 11];
    let msg = Mbp10Msg {
        levels,
        flags: 0,
        ts_recv: 0,
        sequence: 0,
    };
    assert!(matches!(
        decode_mbp10_msg(&msg, test_id(), 2, 0),
        Err(DecodeError::InvalidDepthLevels)
    ));
}

fn sample_ohlcv(rtype: u8, ts_event: u64) -> OhlcvMsg {
    OhlcvMsg {
        hd: RecordHeader { rtype, ts_event },
        open: 2500,
        high: 2700,
        low: 2400,
        close: 2600,
        volume: 17,
    }
}

#[test]
fn bar_type_maps_supported_tags() {
    let id = test_id();
    let bt = decode_bar_type(&sample_ohlcv(32, 0), id.clone()).unwrap();
    assert_eq!(bt.specification.aggregation, BarAggregation::Second);
    assert_eq!(bt.specification.step, 1);
    assert_eq!(bt.specification.price_type, PriceType::Last);
    assert_eq!(bt.aggregation_source, AggregationSource::External);
    let bt = decode_bar_type(&sample_ohlcv(35, 0), id.clone()).unwrap();
    assert_eq!(bt.specification.aggregation, BarAggregation::Day);
    assert!(matches!(
        decode_bar_type(&sample_ohlcv(36, 0), id),
        Err(DecodeError::UnsupportedBarAggregation(36))
    ));
}

#[test]
fn ts_event_adjustments_are_the_bar_durations() {
    assert_eq!(
        decode_ts_event_adjustment(&sample_ohlcv(32, 0)).unwrap(),
        1_000_000_000
    );
    assert_eq!(
        decode_ts_event_adjustment(&sample_ohlcv(33, 0)).unwrap(),
        60_000_000_000
    );
    assert_eq!(
        decode_ts_event_adjustment(&sample_ohlcv(34, 0)).unwrap(),
        3_600_000_000_000
    );
    assert_eq!(
        decode_ts_event_adjustment(&sample_ohlcv(35, 0)).unwrap(),
        86_400_000_000_000
    );
    assert!(decode_ts_event_adjustment(&sample_ohlcv(0, 0)).is_err());
}

#[test]
fn one_minute_bar_event_time_is_open_plus_sixty_seconds() {
    let t: u64 = 1_700_000_000_000_000_000;
    let msg = sample_ohlcv(33, t);
    let bar = decode_ohlcv_msg(&msg, test_id(), 2, 0).unwrap();
    assert_eq!(bar.ts_event, t + 60_000_000_000);
    assert!(bar.ts_init >= t + 60_000_000_000);
    assert_eq!(bar.bar_type.specification.aggregation, BarAggregation::Minute);
}

#[test]
fn bar_init_time_uses_larger_of_caller_and_open() {
    let t: u64 = 1_000_000;
    let msg = sample_ohlcv(32, t);
    // Caller-supplied init time later than the open.
    let bar = decode_ohlcv_msg(&msg, test_id(), 2, 5_000_000).unwrap();
    assert_eq!(bar.ts_init, 5_000_000 + 1_000_000_000);
    // Caller-supplied init time earlier than the open.
    let bar = decode_ohlcv_msg(&msg, test_id(), 2, 10).unwrap();
    assert_eq!(bar.ts_init, t + 1_000_000_000);
}

#[test]
fn bar_prices_carry_display_factor_division() {
    let msg = sample_ohlcv(33, 0);
    let bar = decode_ohlcv_msg(&msg, test_id(), 2, 0).unwrap();
    assert_eq!(bar.open.raw, 25);
    assert_eq!(bar.high.raw, 27);
    assert_eq!(bar.low.raw, 24);
    assert_eq!(bar.close.raw, 26);
    assert_eq!(bar.volume.raw, 17_000_000_000);
    assert_eq!(bar.volume.precision, 0);
}

#[test]
fn decoding_twice_yields_equal_output() {
    let msg = sample_mbo(b'B', b'A');
    let (d1, _) = decode_mbo_msg(&msg, test_id(), 2, 5, true).unwrap();
    let (d2, _) = decode_mbo_msg(&msg, test_id(), 2, 5, true).unwrap();
    let (d1, d2) = (d1.unwrap(), d2.unwrap());
    assert_eq!(d1.order, d2.order);
    assert_eq!(d1.action, d2.action);
    assert_eq!(d1.flags, d2.flags);
    assert_eq!(d1.sequence, d2.sequence);
    assert_eq!(d1.ts_event, d2.ts_event);
    assert_eq!(d1.ts_init, d2.ts_init);
    assert_eq!(d1.instrument_id.symbol, d2.instrument_id.symbol);
    assert_eq!(d1.instrument_id.venue, d2.instrument_id.venue);

    let trade_msg = TradeMsg {
        price: 1,
        size: 1,
        side: b'A',
        ts_recv: 2,
        sequence: 3,
    };
    let t1 = decode_trade_msg(&trade_msg, test_id(), 2, 0).unwrap();
    let t2 = decode_trade_msg(&trade_msg, test_id(), 2, 0).unwrap();
    assert_eq!(t1.price, t2.price);
    assert_eq!(t1.size, t2.size);
    assert_eq!(t1.aggressor_side, t2.aggressor_side);
    assert_eq!(t1.trade_id.value, t2.trade_id.value);
    assert_eq!(t1.ts_event, t2.ts_event);
    assert_eq!(t1.ts_init, t2.ts_init);
}

#[test]
fn dispatcher_routes_each_kind() {
    let id = test_id();

    let rec = WireRecord::Trade(TradeMsg {
        price: 10,
        size: 1,
        side: b'B',
        ts_recv: 50,
        sequence: 1,
    });
    let (primary, secondary) = decode_record(&rec, id.clone(), 2, None, false).unwrap();
    match primary.unwrap() {
        Data::Trade(t) => {
            // No override: the receipt timestamp is the default init time.
            assert_eq!(t.ts_init, 50);
        }
        other => panic!("expected a trade, got {other:?}"),
    }
    assert!(secondary.is_none());

    let rec = WireRecord::Mbo(sample_mbo(b'B', b'A'));
    let (primary, secondary) = decode_record(&rec, id.clone(), 2, Some(9), false).unwrap();
    assert!(matches!(primary.unwrap(), Data::Delta(_)));
    assert!(secondary.is_none());

    let rec = WireRecord::Mbp1(Mbp1Msg {
        price: 1,
        size: 1,
        action: b'T',
        side: b'A',
        ts_recv: 60,
        sequence: 2,
        level: sample_level(),
    });
    let (primary, secondary) = decode_record(&rec, id.clone(), 2, None, true).unwrap();
    assert!(matches!(primary.unwrap(), Data::Quote(_)));
    assert!(matches!(secondary.unwrap(), Data::Trade(_)));

    let rec = WireRecord::Mbp10(Mbp10Msg {
        levels: vec![sample_level(); 10],
        flags: 0,
        ts_recv: 70,
        sequence: 3,
    });
    let (primary, secondary) = decode_record(&rec, id.clone(), 2, None, false).unwrap();
    assert!(matches!(primary.unwrap(), Data::Depth10(_)));
    assert!(secondary.is_none());

    let rec = WireRecord::Ohlcv(sample_ohlcv(33, 100));
    let (primary, secondary) = decode_record(&rec, id.clone(), 2, None, false).unwrap();
    match primary.unwrap() {
        Data::Bar(b) => {
            // No override: the embedded event time is the default init time.
            assert_eq!(b.ts_init, 100 + 60_000_000_000);
        }
        other => panic!("expected a bar, got {other:?}"),
    }
    assert!(secondary.is_none());
}

#[test]
fn trade_id_of_sequence_zero_is_zero_digit() {
    let msg = TradeMsg {
        price: 1,
        size: 1,
        side: b'B',
        ts_recv: 0,
        sequence: 0,
    };
    let trade = decode_trade_msg(&msg, test_id(), 2, 0).unwrap();
    assert_eq!(trade.trade_id.value, "0");
}

#[test]
fn dispatcher_propagates_decode_errors() {
    let rec = WireRecord::Trade(TradeMsg {
        price: 1,
        size: 1,
        side: b'B',
        ts_recv: 0,
        sequence: 0,
    });
    assert!(matches!(
        decode_record(&rec, test_id(), 10, None, false),
        Err(DecodeError::InvalidPrecision(10))
    ));
    let rec = WireRecord::Mbp10(Mbp10Msg {
        levels: Vec::new(),
        flags: 0,
        ts_recv: 0,
        sequence: 0,
    });
    assert!(matches!(
        decode_record(&rec, test_id(), 2, None, false),
        Err(DecodeError::InvalidDepthLevels)
    ));
}

#[test]
fn dispatcher_rejects_unknown_record_types() {
    let rec = WireRecord::Unsupported(19);
    assert!(matches!(
        decode_record(&rec, test_id(), 2, None, false),
        Err(DecodeError::UnsupportedRecordType(19))
    ));
}

#[test]
fn dispatcher_drops_trade_like_mbo_without_trades() {
    let rec = WireRecord::Mbo(sample_mbo(b'N', b'T'));
    let (primary, secondary) = decode_record(&rec, test_id(), 2, None, false).unwrap();
    assert!(primary.is_none());
    assert!(secondary.is_none());
    let rec = WireRecord::Mbo(sample_mbo(b'N', b'T'));
    let (primary, secondary) = decode_record(&rec, test_id(), 2, None, true).unwrap();
    assert!(matches!(primary.unwrap(), Data::Trade(_)));
    assert!(secondary.is_none());
}
