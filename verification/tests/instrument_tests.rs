//! Tests for the instrument-definition decoders over both schema revisions.

use databento_decode::definition::{
    decode_equity, decode_equity_v1, decode_futures_contract, decode_futures_contract_v1,
    decode_futures_spread, decode_instrument_def_msg, decode_instrument_def_msg_v1,
    decode_options_contract, decode_options_contract_v1, decode_options_spread,
};
use databento_decode::enums::{AssetClass, OptionKind};
use databento_decode::errors::DecodeError;
use databento_decode::identifiers::InstrumentId;
use databento_decode::instruments::Instrument;
use databento_decode::records::{InstrumentDefMsg, InstrumentDefMsgV1};
use databento_decode::types::{Currency, Price};

fn test_id(venue: &str) -> InstrumentId {
    InstrumentId::new("TEST".to_string(), venue.to_string())
}

fn buf(text: &[u8], capacity: usize) -> Vec<u8> {
    let mut v = text.to_vec();
    while v.len() < capacity {
        v.push(0);
    }
    v
}

fn sample_def(instrument_class: u8) -> InstrumentDefMsg {
    InstrumentDefMsg {
        ts_recv: 111,
        min_price_increment: 25,
        activation: 1_000,
        expiration: 2_000,
        min_lot_size_round_lot: 100,
        strike_price: 450_000,
        instrument_class,
        currency: buf(b"USD", 4),
        cfi: buf(b"FFCXSX", 7),
        asset: buf(b"ES", 7),
        underlying: buf(b"AAPL", 21),
        secsubtype: buf(b"CAL", 6),
    }
}

fn sample_def_v1(instrument_class: u8) -> InstrumentDefMsgV1 {
    InstrumentDefMsgV1 {
        ts_recv: 111,
        min_price_increment: 25,
        activation: 1_000,
        expiration: 2_000,
        min_lot_size_round_lot: 100,
        strike_price: 450_000,
        instrument_class,
        currency: buf(b"USD", 4),
        cfi: buf(b"FFCXSX", 7),
        asset: buf(b"ES", 7),
        underlying: buf(b"AAPL", 21),
        secsubtype: buf(b"CAL", 6),
    }
}

#[test]
fn equity_pins_usd_and_reads_lot_size() {
    let msg = sample_def(b'K');
    let e = decode_equity(&msg, test_id("XNAS"), 9).unwrap();
    assert_eq!(e.currency, Currency::Usd);
    assert_eq!(e.price_precision, 2);
    assert_eq!(e.price_increment, Price { raw: 25, precision: 2 });
    assert_eq!(e.lot_size.unwrap().raw, 100 * 1_000_000_000);
    assert!(e.isin.is_none());
    assert_eq!(e.raw_symbol, "TEST");
    assert_eq!(e.ts_event, 111);
    assert_eq!(e.ts_init, 9);
}

#[test]
fn equity_rejects_negative_lot_size() {
    let mut msg = sample_def(b'K');
    msg.min_lot_size_round_lot = -1;
    assert!(matches!(
        decode_equity(&msg, test_id("XNAS"), 9),
        Err(DecodeError::InvalidQuantity)
    ));
}

#[test]
fn equity_sentinel_increment_becomes_one_unit() {
    let mut msg = sample_def(b'K');
    msg.min_price_increment = i64::MAX;
    let e = decode_equity(&msg, test_id("XNAS"), 9).unwrap();
    assert_eq!(e.price_increment, Price { raw: 1, precision: 2 });
}

#[test]
fn futures_contract_reads_cfi_and_underlying() {
    let msg = sample_def(b'F');
    let c = decode_futures_contract(&msg, test_id("GLBX"), 9).unwrap();
    // CFI "FFCXSX": category F carries no hint and attribute 1 is not the
    // Index override, so the Commodity default applies.
    assert_eq!(c.asset_class, AssetClass::Commodity);
    assert_eq!(c.underlying, "ES");
    assert_eq!(c.activation, 1_000);
    assert_eq!(c.expiration, 2_000);
    assert_eq!(c.multiplier.raw, 1_000_000_000);
    assert_eq!(c.lot_size.raw, 1_000_000_000);
    assert_eq!(c.currency, Currency::Usd);
}

#[test]
fn futures_contract_asset_class_from_cfi() {
    let mut msg = sample_def(b'F');
    msg.cfi = buf(b"EXXXXX", 7);
    let c = decode_futures_contract(&msg, test_id("GLBX"), 9).unwrap();
    assert_eq!(c.asset_class, AssetClass::Equity);
    msg.cfi = buf(b"EXIXXX", 7);
    let c = decode_futures_contract(&msg, test_id("GLBX"), 9).unwrap();
    assert_eq!(c.asset_class, AssetClass::Index);
}

#[test]
fn futures_contract_rejects_short_cfi() {
    let mut msg = sample_def(b'F');
    msg.cfi = buf(b"FF", 7);
    assert!(matches!(
        decode_futures_contract(&msg, test_id("GLBX"), 9),
        Err(DecodeError::CfiTooShort)
    ));
}

#[test]
fn futures_contract_rejects_malformed_text() {
    let mut msg = sample_def(b'F');
    msg.cfi = vec![0xFF, 0xFE, 0x41, 0, 0, 0, 0];
    assert!(matches!(
        decode_futures_contract(&msg, test_id("GLBX"), 9),
        Err(DecodeError::MalformedText)
    ));
}

#[test]
fn futures_spread_adds_strategy_type() {
    let msg = sample_def(b'S');
    let c = decode_futures_spread(&msg, test_id("GLBX"), 9).unwrap();
    assert_eq!(c.strategy_type, "CAL");
    assert_eq!(c.underlying, "ES");
}

#[test]
fn options_contract_on_opra_forces_equity() {
    let msg = sample_def(b'C');
    let o = decode_options_contract(&msg, test_id("OPRA"), 9).unwrap();
    assert_eq!(o.asset_class, AssetClass::Equity);
    assert_eq!(o.option_kind, OptionKind::Call);
    assert_eq!(o.strike_price, Price { raw: 450_000, precision: 2 });
    assert_eq!(o.currency, Currency::Usd);
    assert_eq!(o.underlying, "AAPL");
}

#[test]
fn options_contract_off_opra_uses_cfi() {
    let mut msg = sample_def(b'P');
    msg.cfi = buf(b"EXXXXX", 7);
    let o = decode_options_contract(&msg, test_id("GLBX"), 9).unwrap();
    assert_eq!(o.asset_class, AssetClass::Equity);
    assert_eq!(o.option_kind, OptionKind::Put);
}

#[test]
fn options_contract_on_opra_skips_cfi_length_check() {
    let mut msg = sample_def(b'C');
    msg.cfi = buf(b"", 7);
    assert!(decode_options_contract(&msg, test_id("OPRA"), 9).is_ok());
    assert!(matches!(
        decode_options_contract(&msg, test_id("GLBX"), 9),
        Err(DecodeError::CfiTooShort)
    ));
}

#[test]
fn options_contract_rejects_unknown_currency() {
    let mut msg = sample_def(b'C');
    msg.currency = buf(b"QQQ", 4);
    assert!(matches!(
        decode_options_contract(&msg, test_id("OPRA"), 9),
        Err(DecodeError::UnknownCurrency)
    ));
}

#[test]
fn options_contract_strike_uses_currency_precision() {
    let mut msg = sample_def(b'C');
    msg.currency = buf(b"JPY", 4);
    let o = decode_options_contract(&msg, test_id("OPRA"), 9).unwrap();
    assert_eq!(o.currency, Currency::Jpy);
    assert_eq!(o.price_precision, 0);
    assert_eq!(o.strike_price, Price { raw: 450_000, precision: 0 });
}

#[test]
fn options_spread_reads_strategy_type() {
    let msg = sample_def(b'T');
    let o = decode_options_spread(&msg, test_id("OPRA"), 9).unwrap();
    assert_eq!(o.strategy_type, "CAL");
    assert_eq!(o.asset_class, AssetClass::Equity);
}

#[test]
fn definition_dispatch_covers_all_classes() {
    let id = || test_id("OPRA");
    assert!(matches!(
        decode_instrument_def_msg(&sample_def(b'K'), id(), 9),
        Ok(Instrument::Equity(_))
    ));
    assert!(matches!(
        decode_instrument_def_msg(&sample_def(b'F'), id(), 9),
        Ok(Instrument::FuturesContract(_))
    ));
    assert!(matches!(
        decode_instrument_def_msg(&sample_def(b'S'), id(), 9),
        Ok(Instrument::FuturesSpread(_))
    ));
    assert!(matches!(
        decode_instrument_def_msg(&sample_def(b'C'), id(), 9),
        Ok(Instrument::OptionsContract(_))
    ));
    assert!(matches!(
        decode_instrument_def_msg(&sample_def(b'P'), id(), 9),
        Ok(Instrument::OptionsContract(_))
    ));
    assert!(matches!(
        decode_instrument_def_msg(&sample_def(b'T'), id(), 9),
        Ok(Instrument::OptionsSpread(_))
    ));
    assert!(matches!(
        decode_instrument_def_msg(&sample_def(b'M'), id(), 9),
        Ok(Instrument::OptionsSpread(_))
    ));
}

#[test]
fn definition_dispatch_rejects_bond_fx_spot_and_unknown() {
    let id = || test_id("OPRA");
    assert!(matches!(
        decode_instrument_def_msg(&sample_def(b'B'), id(), 9),
        Err(DecodeError::UnsupportedInstrumentClass(66))
    ));
    assert!(matches!(
        decode_instrument_def_msg(&sample_def(b'X'), id(), 9),
        Err(DecodeError::UnsupportedInstrumentClass(88))
    ));
    assert!(matches!(
        decode_instrument_def_msg(&sample_def(b'Q'), id(), 9),
        Err(DecodeError::UnsupportedInstrumentClass(81))
    ));
}

#[test]
fn legacy_schema_decodes_identically() {
    let msg = sample_def_v1(b'K');
    let e = decode_equity_v1(&msg, test_id("XNAS"), 9).unwrap();
    assert_eq!(e.price_increment, Price { raw: 25, precision: 2 });
    assert_eq!(e.lot_size.unwrap().raw, 100 * 1_000_000_000);

    let msg = sample_def_v1(b'F');
    let c = decode_futures_contract_v1(&msg, test_id("GLBX"), 9).unwrap();
    assert_eq!(c.asset_class, AssetClass::Commodity);
    assert_eq!(c.underlying, "ES");

    let msg = sample_def_v1(b'C');
    let o = decode_options_contract_v1(&msg, test_id("OPRA"), 9).unwrap();
    assert_eq!(o.asset_class, AssetClass::Equity);
    assert_eq!(o.option_kind, OptionKind::Call);

    assert!(matches!(
        decode_instrument_def_msg_v1(&sample_def_v1(b'S'), test_id("GLBX"), 9),
        Ok(Instrument::FuturesSpread(_))
    ));
    assert!(matches!(
        decode_instrument_def_msg_v1(&sample_def_v1(b'M'), test_id("OPRA"), 9),
        Ok(Instrument::OptionsSpread(_))
    ));
    assert!(matches!(
        decode_instrument_def_msg_v1(&sample_def_v1(b'B'), test_id("GLBX"), 9),
        Err(DecodeError::UnsupportedInstrumentClass(66))
    ));
}
