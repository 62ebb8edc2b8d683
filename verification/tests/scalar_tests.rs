//! Tests for the scalar/enum decoders, the CFI classifier, and the
//! fixed-point converter.

use databento_decode::cfi::parse_cfi_iso10926;
use databento_decode::enums::{
    is_trade_msg, parse_aggressor_side, parse_book_action, parse_option_kind, parse_order_side,
    AggressorSide, AssetClass, BookAction, InstrumentClass, OptionKind, OrderSide,
};
use databento_decode::errors::DecodeError;
use databento_decode::identifiers::TradeId;
use databento_decode::text::cstr_to_string;
use databento_decode::types::{
    currency_from_code, decode_min_price_increment, Currency, Price,
};

#[test]
fn order_side_is_total_and_side_preserving() {
    assert_eq!(parse_order_side(b'A'), OrderSide::Sell);
    assert_eq!(parse_order_side(b'B'), OrderSide::Buy);
    assert_eq!(parse_order_side(b'N'), OrderSide::NoOrderSide);
    assert_eq!(parse_order_side(b'Z'), OrderSide::NoOrderSide);
    assert_eq!(parse_order_side(0), OrderSide::NoOrderSide);
}

#[test]
fn aggressor_side_is_total_and_side_preserving() {
    assert_eq!(parse_aggressor_side(b'A'), AggressorSide::Seller);
    assert_eq!(parse_aggressor_side(b'B'), AggressorSide::Buyer);
    assert_eq!(parse_aggressor_side(b'N'), AggressorSide::NoAggressor);
    assert_eq!(parse_aggressor_side(b'~'), AggressorSide::NoAggressor);
}

#[test]
fn book_action_covers_all_four_actions() {
    assert_eq!(parse_book_action(b'A').unwrap(), BookAction::Add);
    assert_eq!(parse_book_action(b'C').unwrap(), BookAction::Delete);
    assert_eq!(parse_book_action(b'F').unwrap(), BookAction::Update);
    assert_eq!(parse_book_action(b'M').unwrap(), BookAction::Update);
    assert_eq!(parse_book_action(b'R').unwrap(), BookAction::Clear);
}

#[test]
fn book_action_rejects_unknown_codes() {
    assert_eq!(
        parse_book_action(b'Z'),
        Err(DecodeError::InvalidBookAction(b'Z'))
    );
    assert_eq!(
        parse_book_action(b'T'),
        Err(DecodeError::InvalidBookAction(b'T'))
    );
}

#[test]
fn option_kind_maps_call_and_put_only() {
    assert_eq!(parse_option_kind(b'C').unwrap(), OptionKind::Call);
    assert_eq!(parse_option_kind(b'P').unwrap(), OptionKind::Put);
    assert_eq!(
        parse_option_kind(b'Z'),
        Err(DecodeError::InvalidOptionKind(b'Z'))
    );
}

#[test]
fn trade_msg_recognition() {
    assert!(is_trade_msg(OrderSide::NoOrderSide, b'A'));
    assert!(is_trade_msg(OrderSide::Buy, b'T'));
    assert!(!is_trade_msg(OrderSide::Buy, b'A'));
    assert!(!is_trade_msg(OrderSide::Sell, b'M'));
}

#[test]
fn cfi_equity_category() {
    let (asset, instrument) = parse_cfi_iso10926("ECXXXX").unwrap();
    assert_eq!(asset, Some(AssetClass::Equity));
    assert_eq!(instrument, None);
}

#[test]
fn cfi_group_i_hints_future() {
    let (asset, instrument) = parse_cfi_iso10926("EIXXXX").unwrap();
    assert_eq!(asset, Some(AssetClass::Equity));
    assert_eq!(instrument, Some(InstrumentClass::Future));
}

#[test]
fn cfi_attribute_override_forces_index() {
    let (asset, instrument) = parse_cfi_iso10926("EXIXXX").unwrap();
    assert_eq!(asset, Some(AssetClass::Index));
    assert_eq!(instrument, None);
    let (asset, _) = parse_cfi_iso10926("DXIXXX").unwrap();
    assert_eq!(asset, Some(AssetClass::Index));
}

#[test]
fn cfi_debt_and_unknown_categories() {
    let (asset, _) = parse_cfi_iso10926("DBXXXX").unwrap();
    assert_eq!(asset, Some(AssetClass::Debt));
    let (asset, _) = parse_cfi_iso10926("SXXXXX").unwrap();
    assert_eq!(asset, None);
    let (asset, _) = parse_cfi_iso10926("QXXXXX").unwrap();
    assert_eq!(asset, None);
}

#[test]
fn cfi_too_short_fails() {
    assert_eq!(parse_cfi_iso10926("E"), Err(DecodeError::CfiTooShort));
    assert_eq!(parse_cfi_iso10926("EC"), Err(DecodeError::CfiTooShort));
    assert_eq!(parse_cfi_iso10926(""), Err(DecodeError::CfiTooShort));
    assert!(parse_cfi_iso10926("ECX").is_ok());
}

#[test]
fn min_price_increment_sentinels_yield_one_unit() {
    let unit = Price { raw: 1, precision: 2 };
    assert_eq!(decode_min_price_increment(0, Currency::Usd).unwrap(), unit);
    assert_eq!(
        decode_min_price_increment(i64::MAX, Currency::Usd).unwrap(),
        unit
    );
}

#[test]
fn min_price_increment_passes_other_values_through() {
    assert_eq!(
        decode_min_price_increment(2500, Currency::Usd).unwrap(),
        Price { raw: 2500, precision: 2 }
    );
    assert_eq!(
        decode_min_price_increment(-5, Currency::Usd).unwrap(),
        Price { raw: -5, precision: 2 }
    );
}

#[test]
fn min_price_increment_uses_currency_precision() {
    assert_eq!(
        decode_min_price_increment(0, Currency::Jpy).unwrap(),
        Price { raw: 1, precision: 0 }
    );
}

#[test]
fn currency_codes_resolve() {
    assert_eq!(currency_from_code("USD").unwrap(), Currency::Usd);
    assert_eq!(currency_from_code("JPY").unwrap(), Currency::Jpy);
    assert_eq!(currency_from_code("EUR").unwrap(), Currency::Eur);
    assert_eq!(
        currency_from_code("ZZZ"),
        Err(DecodeError::UnknownCurrency)
    );
    assert_eq!(currency_from_code(""), Err(DecodeError::UnknownCurrency));
}

#[test]
fn embedded_text_stops_at_nul() {
    assert_eq!(cstr_to_string(b"USD\0").unwrap(), "USD");
    assert_eq!(cstr_to_string(b"USD\0garbage").unwrap(), "USD");
    assert_eq!(cstr_to_string(b"ES").unwrap(), "ES");
    assert_eq!(cstr_to_string(b"\0\0\0").unwrap(), "");
}

#[test]
fn embedded_text_rejects_malformed_bytes() {
    assert_eq!(
        cstr_to_string(&[0xFF, 0xFE, 0x41, 0x00]),
        Err(DecodeError::MalformedText)
    );
    assert_eq!(
        cstr_to_string(&[0xC0, 0x41]),
        Err(DecodeError::MalformedText)
    );
}

#[test]
fn trade_id_validation() {
    assert!(TradeId::new("123".to_string()).is_ok());
    assert!(matches!(
        TradeId::new(String::new()),
        Err(DecodeError::InvalidTradeId)
    ));
    assert!(matches!(
        TradeId::new("x".repeat(37)),
        Err(DecodeError::InvalidTradeId)
    ));
    assert!(TradeId::new("x".repeat(36)).is_ok());
}
