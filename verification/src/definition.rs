//! Instrument-definition decoding: a state machine keyed by one
//! instrument-class code character, over two wire schema revisions that
//! differ only in layout, not semantics.

use vstd::prelude::*;

use crate::cfi::{parse_cfi_iso10926, spec_cfi_asset_class, spec_parse_cfi};
use crate::enums::{parse_option_kind, spec_option_kind, AssetClass};
use crate::errors::DecodeError;
use crate::identifiers::InstrumentId;
use crate::instruments::{
    Equity, FuturesContract, FuturesSpread, Instrument, OptionsContract, OptionsSpread,
};
use crate::records::{InstrumentDefMsg, InstrumentDefMsgV1};
use crate::text::{cstr_prefix, cstr_to_string};
use crate::types::{
    currency_from_code, decode_min_price_increment, spec_currency_from_code,
    spec_min_price_increment, str_eq, Currency, Price, Quantity, FIXED_SCALAR,
};
use vstd::utf8::{decode_utf8, valid_utf8};

verus! {

/// The logical fields of an instrument definition, independent of which
/// wire schema revision carried them.
pub struct DefFields {
    pub ts_recv: u64,
    pub min_price_increment: i64,
    pub activation: u64,
    pub expiration: u64,
    pub min_lot_size_round_lot: i32,
    pub strike_price: i64,
    pub instrument_class: u8,
    pub currency: Seq<u8>,
    pub cfi: Seq<u8>,
    pub asset: Seq<u8>,
    pub underlying: Seq<u8>,
    pub secsubtype: Seq<u8>,
}

/// The logical fields of a current-schema definition record.
pub open spec fn def_fields(msg: InstrumentDefMsg) -> DefFields {
    DefFields {
        ts_recv: msg.ts_recv,
        min_price_increment: msg.min_price_increment,
        activation: msg.activation,
        expiration: msg.expiration,
        min_lot_size_round_lot: msg.min_lot_size_round_lot,
        strike_price: msg.strike_price,
        instrument_class: msg.instrument_class,
        currency: msg.currency@,
        cfi: msg.cfi@,
        asset: msg.asset@,
        underlying: msg.underlying@,
        secsubtype: msg.secsubtype@,
    }
}

/// The logical fields of a legacy-schema definition record.
pub open spec fn def_fields_v1(msg: InstrumentDefMsgV1) -> DefFields {
    DefFields {
        ts_recv: msg.ts_recv,
        min_price_increment: msg.min_price_increment,
        activation: msg.activation,
        expiration: msg.expiration,
        min_lot_size_round_lot: msg.min_lot_size_round_lot,
        strike_price: msg.strike_price,
        instrument_class: msg.instrument_class,
        currency: msg.currency@,
        cfi: msg.cfi@,
        asset: msg.asset@,
        underlying: msg.underlying@,
        secsubtype: msg.secsubtype@,
    }
}

/// Whether an embedded buffer's logical text is well formed.
pub open spec fn buf_text_ok(buf: Seq<u8>) -> bool {
    valid_utf8(cstr_prefix(buf))
}

/// The characters of an embedded buffer's logical text.
pub open spec fn buf_text(buf: Seq<u8>) -> Seq<char> {
    decode_utf8(cstr_prefix(buf))
}

/// The asset class a classification code yields once the caller's default
/// is applied: the classifier's hint, or Commodity when it has none.
pub open spec fn spec_asset_class_defaulted(cfi_text: Seq<char>) -> AssetClass {
    match spec_cfi_asset_class(cfi_text[0], cfi_text[2]) {
        Some(a) => a,
        None => AssetClass::Commodity,
    }
}

/// The placeholder contract sizing: one whole unit at precision 0, pending
/// richer upstream data.
pub open spec fn spec_unit_quantity() -> Quantity {
    Quantity { raw: FIXED_SCALAR, precision: 0 }
}

fn unit_quantity() -> (r: Quantity)
    ensures
        r == spec_unit_quantity(),
{
    Quantity { raw: FIXED_SCALAR, precision: 0 }
}

/// The quantity a non-negative whole-unit lot size decodes to.
pub open spec fn spec_lot_quantity(v: i32) -> Quantity {
    Quantity { raw: (v * FIXED_SCALAR) as u64, precision: 0 }
}

/// An equity definition decodes whenever its round-lot size is not
/// negative.
pub open spec fn equity_ok(f: DefFields) -> bool {
    f.min_lot_size_round_lot >= 0
}

/// What a decoded equity holds. The currency is provisionally pinned to
/// USD pending multi-currency support, and no identifier beyond the symbol
/// is populated yet.
pub open spec fn equity_post(
    f: DefFields,
    instrument_id: InstrumentId,
    ts_init: u64,
    e: Equity,
) -> bool {
    &&& e.id == instrument_id
    &&& e.raw_symbol == instrument_id.symbol
    &&& e.isin is None
    &&& e.currency == Currency::Usd
    &&& e.price_precision == Currency::Usd.spec_precision()
    &&& e.price_increment == spec_min_price_increment(f.min_price_increment, Currency::Usd)
    &&& e.lot_size == Some(spec_lot_quantity(f.min_lot_size_round_lot))
    &&& e.ts_event == f.ts_recv
    &&& e.ts_init == ts_init
}

/// Decodes an equity definition (current schema).
pub fn decode_equity(msg: &InstrumentDefMsg, instrument_id: InstrumentId, ts_init: u64) -> (r:
    Result<Equity, DecodeError>)
    ensures
        r is Ok <==> equity_ok(def_fields(*msg)),
        r matches Ok(e) ==> equity_post(def_fields(*msg), instrument_id, ts_init, e),
        !equity_ok(def_fields(*msg)) ==> r == Err::<Equity, DecodeError>(
            DecodeError::InvalidQuantity,
        ),
{
    let currency = Currency::Usd;
    let price_increment = decode_min_price_increment(msg.min_price_increment, currency)?;
    if msg.min_lot_size_round_lot < 0 {
        return Err(DecodeError::InvalidQuantity);
    }
    let lot_size = Quantity::from_whole(msg.min_lot_size_round_lot as u64, 0)?;
    let raw_symbol = instrument_id.symbol.clone();
    Ok(
        Equity {
            id: instrument_id,
            raw_symbol,
            isin: None,
            currency,
            price_precision: currency.precision(),
            price_increment,
            lot_size: Some(lot_size),
            ts_event: msg.ts_recv,
            ts_init,
        },
    )
}

/// Decodes an equity definition (legacy schema).
pub fn decode_equity_v1(msg: &InstrumentDefMsgV1, instrument_id: InstrumentId, ts_init: u64) -> (r:
    Result<Equity, DecodeError>)
    ensures
        r is Ok <==> equity_ok(def_fields_v1(*msg)),
        r matches Ok(e) ==> equity_post(def_fields_v1(*msg), instrument_id, ts_init, e),
        !equity_ok(def_fields_v1(*msg)) ==> r == Err::<Equity, DecodeError>(
            DecodeError::InvalidQuantity,
        ),
{
    let currency = Currency::Usd;
    let price_increment = decode_min_price_increment(msg.min_price_increment, currency)?;
    if msg.min_lot_size_round_lot < 0 {
        return Err(DecodeError::InvalidQuantity);
    }
    let lot_size = Quantity::from_whole(msg.min_lot_size_round_lot as u64, 0)?;
    let raw_symbol = instrument_id.symbol.clone();
    Ok(
        Equity {
            id: instrument_id,
            raw_symbol,
            isin: None,
            currency,
            price_precision: currency.precision(),
            price_increment,
            lot_size: Some(lot_size),
            ts_event: msg.ts_recv,
            ts_init,
        },
    )
}

/// A futures-contract definition decodes when its classification code and
/// underlying buffers hold well-formed text and the classification code
/// has at least 3 characters.
pub open spec fn futures_contract_ok(f: DefFields) -> bool {
    &&& buf_text_ok(f.cfi)
    &&& buf_text_ok(f.asset)
    &&& buf_text(f.cfi).len() >= 3
}

/// The error a failing futures-contract decode surfaces: malformed text
/// before a too-short classification code.
pub open spec fn futures_contract_err(f: DefFields) -> DecodeError {
    if !buf_text_ok(f.cfi) || !buf_text_ok(f.asset) {
        DecodeError::MalformedText
    } else {
        DecodeError::CfiTooShort
    }
}

/// What a decoded futures contract holds: the classifier's asset class
/// defaulted to Commodity, the underlying from the embedded buffer, USD
/// pinned provisionally, and placeholder unit sizing.
pub open spec fn futures_contract_post(
    f: DefFields,
    instrument_id: InstrumentId,
    ts_init: u64,
    c: FuturesContract,
) -> bool {
    &&& c.id == instrument_id
    &&& c.raw_symbol == instrument_id.symbol
    &&& c.asset_class == spec_asset_class_defaulted(buf_text(f.cfi))
    &&& c.underlying@ == buf_text(f.asset)
    &&& c.activation == f.activation
    &&& c.expiration == f.expiration
    &&& c.currency == Currency::Usd
    &&& c.price_precision == Currency::Usd.spec_precision()
    &&& c.price_increment == spec_min_price_increment(f.min_price_increment, Currency::Usd)
    &&& c.multiplier == spec_unit_quantity()
    &&& c.lot_size == spec_unit_quantity()
    &&& c.ts_event == f.ts_recv
    &&& c.ts_init == ts_init
}

/// Decodes a futures-contract definition (current schema).
pub fn decode_futures_contract(
    msg: &InstrumentDefMsg,
    instrument_id: InstrumentId,
    ts_init: u64,
) -> (r: Result<FuturesContract, DecodeError>)
    ensures
        r is Ok <==> futures_contract_ok(def_fields(*msg)),
        r matches Ok(c) ==> futures_contract_post(def_fields(*msg), instrument_id, ts_init, c),
        !futures_contract_ok(def_fields(*msg)) ==> r == Err::<FuturesContract, DecodeError>(
            futures_contract_err(def_fields(*msg)),
        ),
{
    let currency = Currency::Usd;
    let cfi_str = cstr_to_string(msg.cfi.as_slice())?;
    let underlying = cstr_to_string(msg.asset.as_slice())?;
    let (asset_class, _instrument_class) = parse_cfi_iso10926(cfi_str.as_str())?;
    let asset_class = match asset_class {
        Some(a) => a,
        None => AssetClass::Commodity,
    };
    let price_increment = decode_min_price_increment(msg.min_price_increment, currency)?;
    let raw_symbol = instrument_id.symbol.clone();
    Ok(
        FuturesContract {
            id: instrument_id,
            raw_symbol,
            asset_class,
            underlying,
            activation: msg.activation,
            expiration: msg.expiration,
            currency,
            price_precision: currency.precision(),
            price_increment,
            multiplier: unit_quantity(),
            lot_size: unit_quantity(),
            ts_event: msg.ts_recv,
            ts_init,
        },
    )
}

/// Decodes a futures-contract definition (legacy schema).
pub fn decode_futures_contract_v1(
    msg: &InstrumentDefMsgV1,
    instrument_id: InstrumentId,
    ts_init: u64,
) -> (r: Result<FuturesContract, DecodeError>)
    ensures
        r is Ok <==> futures_contract_ok(def_fields_v1(*msg)),
        r matches Ok(c) ==> futures_contract_post(def_fields_v1(*msg), instrument_id, ts_init, c),
        !futures_contract_ok(def_fields_v1(*msg)) ==> r == Err::<FuturesContract, DecodeError>(
            futures_contract_err(def_fields_v1(*msg)),
        ),
{
    let currency = Currency::Usd;
    let cfi_str = cstr_to_string(msg.cfi.as_slice())?;
    let underlying = cstr_to_string(msg.asset.as_slice())?;
    let (asset_class, _instrument_class) = parse_cfi_iso10926(cfi_str.as_str())?;
    let asset_class = match asset_class {
        Some(a) => a,
        None => AssetClass::Commodity,
    };
    let price_increment = decode_min_price_increment(msg.min_price_increment, currency)?;
    let raw_symbol = instrument_id.symbol.clone();
    Ok(
        FuturesContract {
            id: instrument_id,
            raw_symbol,
            asset_class,
            underlying,
            activation: msg.activation,
            expiration: msg.expiration,
            currency,
            price_precision: currency.precision(),
            price_increment,
            multiplier: unit_quantity(),
            lot_size: unit_quantity(),
            ts_event: msg.ts_recv,
            ts_init,
        },
    )
}

/// A futures-spread definition decodes when the classification code,
/// underlying and strategy-type buffers hold well-formed text and the
/// classification code has at least 3 characters.
pub open spec fn futures_spread_ok(f: DefFields) -> bool {
    &&& buf_text_ok(f.cfi)
    &&& buf_text_ok(f.asset)
    &&& buf_text_ok(f.secsubtype)
    &&& buf_text(f.cfi).len() >= 3
}

/// The error a failing futures-spread decode surfaces.
pub open spec fn futures_spread_err(f: DefFields) -> DecodeError {
    if !buf_text_ok(f.cfi) || !buf_text_ok(f.asset) || !buf_text_ok(f.secsubtype) {
        DecodeError::MalformedText
    } else {
        DecodeError::CfiTooShort
    }
}

/// What a decoded futures spread holds: the futures-contract fields plus
/// the strategy type from the embedded sub-type buffer.
pub open spec fn futures_spread_post(
    f: DefFields,
    instrument_id: InstrumentId,
    ts_init: u64,
    c: FuturesSpread,
) -> bool {
    &&& c.id == instrument_id
    &&& c.raw_symbol == instrument_id.symbol
    &&& c.asset_class == spec_asset_class_defaulted(buf_text(f.cfi))
    &&& c.underlying@ == buf_text(f.asset)
    &&& c.strategy_type@ == buf_text(f.secsubtype)
    &&& c.activation == f.activation
    &&& c.expiration == f.expiration
    &&& c.currency == Currency::Usd
    &&& c.price_precision == Currency::Usd.spec_precision()
    &&& c.price_increment == spec_min_price_increment(f.min_price_increment, Currency::Usd)
    &&& c.multiplier == spec_unit_quantity()
    &&& c.lot_size == spec_unit_quantity()
    &&& c.ts_event == f.ts_recv
    &&& c.ts_init == ts_init
}

/// Decodes a futures-spread definition (current schema).
pub fn decode_futures_spread(
    msg: &InstrumentDefMsg,
    instrument_id: InstrumentId,
    ts_init: u64,
) -> (r: Result<FuturesSpread, DecodeError>)
    ensures
        r is Ok <==> futures_spread_ok(def_fields(*msg)),
        r matches Ok(c) ==> futures_spread_post(def_fields(*msg), instrument_id, ts_init, c),
        !futures_spread_ok(def_fields(*msg)) ==> r == Err::<FuturesSpread, DecodeError>(
            futures_spread_err(def_fields(*msg)),
        ),
{
    let currency = Currency::Usd;
    let cfi_str = cstr_to_string(msg.cfi.as_slice())?;
    let underlying = cstr_to_string(msg.asset.as_slice())?;
    let strategy_type = cstr_to_string(msg.secsubtype.as_slice())?;
    let (asset_class, _instrument_class) = parse_cfi_iso10926(cfi_str.as_str())?;
    let asset_class = match asset_class {
        Some(a) => a,
        None => AssetClass::Commodity,
    };
    let price_increment = decode_min_price_increment(msg.min_price_increment, currency)?;
    let raw_symbol = instrument_id.symbol.clone();
    Ok(
        FuturesSpread {
            id: instrument_id,
            raw_symbol,
            asset_class,
            underlying,
            strategy_type,
            activation: msg.activation,
            expiration: msg.expiration,
            currency,
            price_precision: currency.precision(),
            price_increment,
            multiplier: unit_quantity(),
            lot_size: unit_quantity(),
            ts_event: msg.ts_recv,
            ts_init,
        },
    )
}

/// Decodes a futures-spread definition (legacy schema).
pub fn decode_futures_spread_v1(
    msg: &InstrumentDefMsgV1,
    instrument_id: InstrumentId,
    ts_init: u64,
) -> (r: Result<FuturesSpread, DecodeError>)
    ensures
        r is Ok <==> futures_spread_ok(def_fields_v1(*msg)),
        r matches Ok(c) ==> futures_spread_post(def_fields_v1(*msg), instrument_id, ts_init, c),
        !futures_spread_ok(def_fields_v1(*msg)) ==> r == Err::<FuturesSpread, DecodeError>(
            futures_spread_err(def_fields_v1(*msg)),
        ),
{
    let currency = Currency::Usd;
    let cfi_str = cstr_to_string(msg.cfi.as_slice())?;
    let underlying = cstr_to_string(msg.asset.as_slice())?;
    let strategy_type = cstr_to_string(msg.secsubtype.as_slice())?;
    let (asset_class, _instrument_class) = parse_cfi_iso10926(cfi_str.as_str())?;
    let asset_class = match asset_class {
        Some(a) => a,
        None => AssetClass::Commodity,
    };
    let price_increment = decode_min_price_increment(msg.min_price_increment, currency)?;
    let raw_symbol = instrument_id.symbol.clone();
    Ok(
        FuturesSpread {
            id: instrument_id,
            raw_symbol,
            asset_class,
            underlying,
            strategy_type,
            activation: msg.activation,
            expiration: msg.expiration,
            currency,
            price_precision: currency.precision(),
            price_increment,
            multiplier: unit_quantity(),
            lot_size: unit_quantity(),
            ts_event: msg.ts_recv,
            ts_init,
        },
    )
}

/// An options-contract definition decodes when its currency, classification
/// and underlying buffers hold well-formed text, the classification code is
/// long enough unless the venue is the options-reporting venue "OPRA", the
/// currency code is known, and the class code is a valid option kind.
pub open spec fn options_contract_ok(f: DefFields, venue: Seq<char>) -> bool {
    &&& buf_text_ok(f.currency)
    &&& buf_text_ok(f.cfi)
    &&& (venue != "OPRA"@ ==> buf_text(f.cfi).len() >= 3)
    &&& buf_text_ok(f.underlying)
    &&& spec_currency_from_code(buf_text(f.currency)) is Some
    &&& spec_option_kind(f.instrument_class) is Some
}

/// The error a failing options-contract decode surfaces, in the order the
/// decoder reads its inputs.
pub open spec fn options_contract_err(f: DefFields, venue: Seq<char>) -> DecodeError {
    if !buf_text_ok(f.currency) || !buf_text_ok(f.cfi) {
        DecodeError::MalformedText
    } else if venue != "OPRA"@ && buf_text(f.cfi).len() < 3 {
        DecodeError::CfiTooShort
    } else if !buf_text_ok(f.underlying) {
        DecodeError::MalformedText
    } else if spec_currency_from_code(buf_text(f.currency)) is None {
        DecodeError::UnknownCurrency
    } else {
        DecodeError::InvalidOptionKind(f.instrument_class)
    }
}

/// What a decoded options contract holds: asset class forced to Equity on
/// the "OPRA" venue and otherwise taken from the classifier with the
/// Commodity default; strike price at the resolved currency's precision.
pub open spec fn options_contract_post(
    f: DefFields,
    instrument_id: InstrumentId,
    ts_init: u64,
    o: OptionsContract,
) -> bool {
    &&& o.id == instrument_id
    &&& o.raw_symbol == instrument_id.symbol
    &&& o.asset_class == (if instrument_id.venue@ == "OPRA"@ {
        AssetClass::Equity
    } else {
        spec_asset_class_defaulted(buf_text(f.cfi))
    })
    &&& o.underlying@ == buf_text(f.underlying)
    &&& spec_option_kind(f.instrument_class) == Some(o.option_kind)
    &&& o.activation == f.activation
    &&& o.expiration == f.expiration
    &&& spec_currency_from_code(buf_text(f.currency)) == Some(o.currency)
    &&& o.strike_price == (Price { raw: f.strike_price, precision: o.currency.spec_precision() })
    &&& o.price_precision == o.currency.spec_precision()
    &&& o.price_increment == spec_min_price_increment(f.min_price_increment, o.currency)
    &&& o.multiplier == spec_unit_quantity()
    &&& o.lot_size == spec_unit_quantity()
    &&& o.ts_event == f.ts_recv
    &&& o.ts_init == ts_init
}

/// Decodes an options-contract definition (current schema).
pub fn decode_options_contract(
    msg: &InstrumentDefMsg,
    instrument_id: InstrumentId,
    ts_init: u64,
) -> (r: Result<OptionsContract, DecodeError>)
    ensures
        r is Ok <==> options_contract_ok(def_fields(*msg), instrument_id.venue@),
        r matches Ok(o) ==> options_contract_post(def_fields(*msg), instrument_id, ts_init, o),
        !options_contract_ok(def_fields(*msg), instrument_id.venue@) ==> r == Err::<
            OptionsContract,
            DecodeError,
        >(options_contract_err(def_fields(*msg), instrument_id.venue@)),
{
    let currency_str = cstr_to_string(msg.currency.as_slice())?;
    let cfi_str = cstr_to_string(msg.cfi.as_slice())?;
    let asset_class_opt = if str_eq(instrument_id.venue.as_str(), "OPRA") {
        Some(AssetClass::Equity)
    } else {
        let (asset_class, _instrument_class) = parse_cfi_iso10926(cfi_str.as_str())?;
        asset_class
    };
    let asset_class = match asset_class_opt {
        Some(a) => a,
        None => AssetClass::Commodity,
    };
    let underlying = cstr_to_string(msg.underlying.as_slice())?;
    let currency = currency_from_code(currency_str.as_str())?;
    let option_kind = parse_option_kind(msg.instrument_class)?;
    let strike_price = Price::from_raw(msg.strike_price, currency.precision())?;
    let price_increment = decode_min_price_increment(msg.min_price_increment, currency)?;
    let raw_symbol = instrument_id.symbol.clone();
    Ok(
        OptionsContract {
            id: instrument_id,
            raw_symbol,
            asset_class,
            underlying,
            option_kind,
            activation: msg.activation,
            expiration: msg.expiration,
            strike_price,
            currency,
            price_precision: currency.precision(),
            price_increment,
            multiplier: unit_quantity(),
            lot_size: unit_quantity(),
            ts_event: msg.ts_recv,
            ts_init,
        },
    )
}

/// Decodes an options-contract definition (legacy schema).
pub fn decode_options_contract_v1(
    msg: &InstrumentDefMsgV1,
    instrument_id: InstrumentId,
    ts_init: u64,
) -> (r: Result<OptionsContract, DecodeError>)
    ensures
        r is Ok <==> options_contract_ok(def_fields_v1(*msg), instrument_id.venue@),
        r matches Ok(o) ==> options_contract_post(def_fields_v1(*msg), instrument_id, ts_init, o),
        !options_contract_ok(def_fields_v1(*msg), instrument_id.venue@) ==> r == Err::<
            OptionsContract,
            DecodeError,
        >(options_contract_err(def_fields_v1(*msg), instrument_id.venue@)),
{
    let currency_str = cstr_to_string(msg.currency.as_slice())?;
    let cfi_str = cstr_to_string(msg.cfi.as_slice())?;
    let asset_class_opt = if str_eq(instrument_id.venue.as_str(), "OPRA") {
        Some(AssetClass::Equity)
    } else {
        let (asset_class, _instrument_class) = parse_cfi_iso10926(cfi_str.as_str())?;
        asset_class
    };
    let asset_class = match asset_class_opt {
        Some(a) => a,
        None => AssetClass::Commodity,
    };
    let underlying = cstr_to_string(msg.underlying.as_slice())?;
    let currency = currency_from_code(currency_str.as_str())?;
    let option_kind = parse_option_kind(msg.instrument_class)?;
    let strike_price = Price::from_raw(msg.strike_price, currency.precision())?;
    let price_increment = decode_min_price_increment(msg.min_price_increment, currency)?;
    let raw_symbol = instrument_id.symbol.clone();
    Ok(
        OptionsContract {
            id: instrument_id,
            raw_symbol,
            asset_class,
            underlying,
            option_kind,
            activation: msg.activation,
            expiration: msg.expiration,
            strike_price,
            currency,
            price_precision: currency.precision(),
            price_increment,
            multiplier: unit_quantity(),
            lot_size: unit_quantity(),
            ts_event: msg.ts_recv,
            ts_init,
        },
    )
}

/// An options-spread definition decodes when its currency, classification,
/// underlying and strategy-type buffers hold well-formed text, the
/// classification code is long enough unless the venue is "OPRA", and the
/// currency code is known.
pub open spec fn options_spread_ok(f: DefFields, venue: Seq<char>) -> bool {
    &&& buf_text_ok(f.currency)
    &&& buf_text_ok(f.cfi)
    &&& (venue != "OPRA"@ ==> buf_text(f.cfi).len() >= 3)
    &&& buf_text_ok(f.underlying)
    &&& buf_text_ok(f.secsubtype)
    &&& spec_currency_from_code(buf_text(f.currency)) is Some
}

/// The error a failing options-spread decode surfaces, in the order the
/// decoder reads its inputs.
pub open spec fn options_spread_err(f: DefFields, venue: Seq<char>) -> DecodeError {
    if !buf_text_ok(f.currency) || !buf_text_ok(f.cfi) {
        DecodeError::MalformedText
    } else if venue != "OPRA"@ && buf_text(f.cfi).len() < 3 {
        DecodeError::CfiTooShort
    } else if !buf_text_ok(f.underlying) || !buf_text_ok(f.secsubtype) {
        DecodeError::MalformedText
    } else {
        DecodeError::UnknownCurrency
    }
}

/// What a decoded options spread holds: the options-contract fields except
/// kind and strike, plus the strategy type from the sub-type buffer.
pub open spec fn options_spread_post(
    f: DefFields,
    instrument_id: InstrumentId,
    ts_init: u64,
    o: OptionsSpread,
) -> bool {
    &&& o.id == instrument_id
    &&& o.raw_symbol == instrument_id.symbol
    &&& o.asset_class == (if instrument_id.venue@ == "OPRA"@ {
        AssetClass::Equity
    } else {
        spec_asset_class_defaulted(buf_text(f.cfi))
    })
    &&& o.underlying@ == buf_text(f.underlying)
    &&& o.strategy_type@ == buf_text(f.secsubtype)
    &&& o.activation == f.activation
    &&& o.expiration == f.expiration
    &&& spec_currency_from_code(buf_text(f.currency)) == Some(o.currency)
    &&& o.price_precision == o.currency.spec_precision()
    &&& o.price_increment == spec_min_price_increment(f.min_price_increment, o.currency)
    &&& o.multiplier == spec_unit_quantity()
    &&& o.lot_size == spec_unit_quantity()
    &&& o.ts_event == f.ts_recv
    &&& o.ts_init == ts_init
}

/// Decodes an options-spread definition (current schema).
pub fn decode_options_spread(
    msg: &InstrumentDefMsg,
    instrument_id: InstrumentId,
    ts_init: u64,
) -> (r: Result<OptionsSpread, DecodeError>)
    ensures
        r is Ok <==> options_spread_ok(def_fields(*msg), instrument_id.venue@),
        r matches Ok(o) ==> options_spread_post(def_fields(*msg), instrument_id, ts_init, o),
        !options_spread_ok(def_fields(*msg), instrument_id.venue@) ==> r == Err::<
            OptionsSpread,
            DecodeError,
        >(options_spread_err(def_fields(*msg), instrument_id.venue@)),
{
    let currency_str = cstr_to_string(msg.currency.as_slice())?;
    let cfi_str = cstr_to_string(msg.cfi.as_slice())?;
    let asset_class_opt = if str_eq(instrument_id.venue.as_str(), "OPRA") {
        Some(AssetClass::Equity)
    } else {
        let (asset_class, _instrument_class) = parse_cfi_iso10926(cfi_str.as_str())?;
        asset_class
    };
    let asset_class = match asset_class_opt {
        Some(a) => a,
        None => AssetClass::Commodity,
    };
    let underlying = cstr_to_string(msg.underlying.as_slice())?;
    let strategy_type = cstr_to_string(msg.secsubtype.as_slice())?;
    let currency = currency_from_code(currency_str.as_str())?;
    let price_increment = decode_min_price_increment(msg.min_price_increment, currency)?;
    let raw_symbol = instrument_id.symbol.clone();
    Ok(
        OptionsSpread {
            id: instrument_id,
            raw_symbol,
            asset_class,
            underlying,
            strategy_type,
            activation: msg.activation,
            expiration: msg.expiration,
            currency,
            price_precision: currency.precision(),
            price_increment,
            multiplier: unit_quantity(),
            lot_size: unit_quantity(),
            ts_event: msg.ts_recv,
            ts_init,
        },
    )
}

/// Decodes an options-spread definition (legacy schema).
pub fn decode_options_spread_v1(
    msg: &InstrumentDefMsgV1,
    instrument_id: InstrumentId,
    ts_init: u64,
) -> (r: Result<OptionsSpread, DecodeError>)
    ensures
        r is Ok <==> options_spread_ok(def_fields_v1(*msg), instrument_id.venue@),
        r matches Ok(o) ==> options_spread_post(def_fields_v1(*msg), instrument_id, ts_init, o),
        !options_spread_ok(def_fields_v1(*msg), instrument_id.venue@) ==> r == Err::<
            OptionsSpread,
            DecodeError,
        >(options_spread_err(def_fields_v1(*msg), instrument_id.venue@)),
{
    let currency_str = cstr_to_string(msg.currency.as_slice())?;
    let cfi_str = cstr_to_string(msg.cfi.as_slice())?;
    let asset_class_opt = if str_eq(instrument_id.venue.as_str(), "OPRA") {
        Some(AssetClass::Equity)
    } else {
        let (asset_class, _instrument_class) = parse_cfi_iso10926(cfi_str.as_str())?;
        asset_class
    };
    let asset_class = match asset_class_opt {
        Some(a) => a,
        None => AssetClass::Commodity,
    };
    let underlying = cstr_to_string(msg.underlying.as_slice())?;
    let strategy_type = cstr_to_string(msg.secsubtype.as_slice())?;
    let currency = currency_from_code(currency_str.as_str())?;
    let price_increment = decode_min_price_increment(msg.min_price_increment, currency)?;
    let raw_symbol = instrument_id.symbol.clone();
    Ok(
        OptionsSpread {
            id: instrument_id,
            raw_symbol,
            asset_class,
            underlying,
            strategy_type,
            activation: msg.activation,
            expiration: msg.expiration,
            currency,
            price_precision: currency.precision(),
            price_increment,
            multiplier: unit_quantity(),
            lot_size: unit_quantity(),
            ts_event: msg.ts_recv,
            ts_init,
        },
    )
}

/// Whether an instrument-class code maps to a variant this layer decodes:
/// `'K'` equity, `'F'` futures contract, `'S'` futures spread, `'C'`/`'P'`
/// options contract, `'T'`/`'M'` options spread. `'B'` (bond) and `'X'`
/// (FX spot) are known but unimplemented; they fail like unknown codes.
pub open spec fn instrument_class_supported(class: u8) -> bool {
    class == 75 || class == 70 || class == 83 || class == 67 || class == 80 || class == 84
        || class == 77
}

/// Decodes an instrument definition in the current wire schema, dispatching
/// on its instrument-class code.
pub fn decode_instrument_def_msg(
    msg: &InstrumentDefMsg,
    instrument_id: InstrumentId,
    ts_init: u64,
) -> (r: Result<Instrument, DecodeError>)
    ensures
        ({
            let f = def_fields(*msg);
            let venue = instrument_id.venue@;
            &&& (f.instrument_class == 75 ==> ({
                &&& (r is Ok <==> equity_ok(f))
                &&& (r matches Ok(i) ==> ({
                    &&& i matches Instrument::Equity(e)
                    &&& equity_post(f, instrument_id, ts_init, e)
                }))
                &&& (!equity_ok(f) ==> r == Err::<Instrument, DecodeError>(
                    DecodeError::InvalidQuantity,
                ))
            }))
            &&& (f.instrument_class == 70 ==> ({
                &&& (r is Ok <==> futures_contract_ok(f))
                &&& (r matches Ok(i) ==> ({
                    &&& i matches Instrument::FuturesContract(c)
                    &&& futures_contract_post(f, instrument_id, ts_init, c)
                }))
                &&& (!futures_contract_ok(f) ==> r == Err::<Instrument, DecodeError>(
                    futures_contract_err(f),
                ))
            }))
            &&& (f.instrument_class == 83 ==> ({
                &&& (r is Ok <==> futures_spread_ok(f))
                &&& (r matches Ok(i) ==> ({
                    &&& i matches Instrument::FuturesSpread(c)
                    &&& futures_spread_post(f, instrument_id, ts_init, c)
                }))
                &&& (!futures_spread_ok(f) ==> r == Err::<Instrument, DecodeError>(
                    futures_spread_err(f),
                ))
            }))
            &&& (f.instrument_class == 67 || f.instrument_class == 80 ==> ({
                &&& (r is Ok <==> options_contract_ok(f, venue))
                &&& (r matches Ok(i) ==> ({
                    &&& i matches Instrument::OptionsContract(o)
                    &&& options_contract_post(f, instrument_id, ts_init, o)
                }))
                &&& (!options_contract_ok(f, venue) ==> r == Err::<Instrument, DecodeError>(
                    options_contract_err(f, venue),
                ))
            }))
            &&& (f.instrument_class == 84 || f.instrument_class == 77 ==> ({
                &&& (r is Ok <==> options_spread_ok(f, venue))
                &&& (r matches Ok(i) ==> ({
                    &&& i matches Instrument::OptionsSpread(o)
                    &&& options_spread_post(f, instrument_id, ts_init, o)
                }))
                &&& (!options_spread_ok(f, venue) ==> r == Err::<Instrument, DecodeError>(
                    options_spread_err(f, venue),
                ))
            }))
            &&& (!instrument_class_supported(f.instrument_class) ==> r == Err::<
                Instrument,
                DecodeError,
            >(DecodeError::UnsupportedInstrumentClass(f.instrument_class)))
        }),
{
    match msg.instrument_class {
        75 => Ok(Instrument::Equity(decode_equity(msg, instrument_id, ts_init)?)),
        70 => Ok(
            Instrument::FuturesContract(decode_futures_contract(msg, instrument_id, ts_init)?),
        ),
        83 => Ok(Instrument::FuturesSpread(decode_futures_spread(msg, instrument_id, ts_init)?)),
        67 | 80 => Ok(
            Instrument::OptionsContract(decode_options_contract(msg, instrument_id, ts_init)?),
        ),
        84 | 77 => Ok(
            Instrument::OptionsSpread(decode_options_spread(msg, instrument_id, ts_init)?),
        ),
        66 => Err(DecodeError::UnsupportedInstrumentClass(66)),  // bond: known, unimplemented
        88 => Err(DecodeError::UnsupportedInstrumentClass(88)),  // FX spot: known, unimplemented
        c => Err(DecodeError::UnsupportedInstrumentClass(c)),
    }
}

/// Decodes an instrument definition in the legacy wire schema, dispatching
/// on its instrument-class code.
pub fn decode_instrument_def_msg_v1(
    msg: &InstrumentDefMsgV1,
    instrument_id: InstrumentId,
    ts_init: u64,
) -> (r: Result<Instrument, DecodeError>)
    ensures
        ({
            let f = def_fields_v1(*msg);
            let venue = instrument_id.venue@;
            &&& (f.instrument_class == 75 ==> ({
                &&& (r is Ok <==> equity_ok(f))
                &&& (r matches Ok(i) ==> ({
                    &&& i matches Instrument::Equity(e)
                    &&& equity_post(f, instrument_id, ts_init, e)
                }))
                &&& (!equity_ok(f) ==> r == Err::<Instrument, DecodeError>(
                    DecodeError::InvalidQuantity,
                ))
            }))
            &&& (f.instrument_class == 70 ==> ({
                &&& (r is Ok <==> futures_contract_ok(f))
                &&& (r matches Ok(i) ==> ({
                    &&& i matches Instrument::FuturesContract(c)
                    &&& futures_contract_post(f, instrument_id, ts_init, c)
                }))
                &&& (!futures_contract_ok(f) ==> r == Err::<Instrument, DecodeError>(
                    futures_contract_err(f),
                ))
            }))
            &&& (f.instrument_class == 83 ==> ({
                &&& (r is Ok <==> futures_spread_ok(f))
                &&& (r matches Ok(i) ==> ({
                    &&& i matches Instrument::FuturesSpread(c)
                    &&& futures_spread_post(f, instrument_id, ts_init, c)
                }))
                &&& (!futures_spread_ok(f) ==> r == Err::<Instrument, DecodeError>(
                    futures_spread_err(f),
                ))
            }))
            &&& (f.instrument_class == 67 || f.instrument_class == 80 ==> ({
                &&& (r is Ok <==> options_contract_ok(f, venue))
                &&& (r matches Ok(i) ==> ({
                    &&& i matches Instrument::OptionsContract(o)
                    &&& options_contract_post(f, instrument_id, ts_init, o)
                }))
                &&& (!options_contract_ok(f, venue) ==> r == Err::<Instrument, DecodeError>(
                    options_contract_err(f, venue),
                ))
            }))
            &&& (f.instrument_class == 84 || f.instrument_class == 77 ==> ({
                &&& (r is Ok <==> options_spread_ok(f, venue))
                &&& (r matches Ok(i) ==> ({
                    &&& i matches Instrument::OptionsSpread(o)
                    &&& options_spread_post(f, instrument_id, ts_init, o)
                }))
                &&& (!options_spread_ok(f, venue) ==> r == Err::<Instrument, DecodeError>(
                    options_spread_err(f, venue),
                ))
            }))
            &&& (!instrument_class_supported(f.instrument_class) ==> r == Err::<
                Instrument,
                DecodeError,
            >(DecodeError::UnsupportedInstrumentClass(f.instrument_class)))
        }),
{
    match msg.instrument_class {
        75 => Ok(Instrument::Equity(decode_equity_v1(msg, instrument_id, ts_init)?)),
        70 => Ok(
            Instrument::FuturesContract(decode_futures_contract_v1(msg, instrument_id, ts_init)?),
        ),
        83 => Ok(
            Instrument::FuturesSpread(decode_futures_spread_v1(msg, instrument_id, ts_init)?),
        ),
        67 | 80 => Ok(
            Instrument::OptionsContract(decode_options_contract_v1(msg, instrument_id, ts_init)?),
        ),
        84 | 77 => Ok(
            Instrument::OptionsSpread(decode_options_spread_v1(msg, instrument_id, ts_init)?),
        ),
        66 => Err(DecodeError::UnsupportedInstrumentClass(66)),  // bond: known, unimplemented
        88 => Err(DecodeError::UnsupportedInstrumentClass(88)),  // FX spot: known, unimplemented
        c => Err(DecodeError::UnsupportedInstrumentClass(c)),
    }
}

/// Instrument decoding is deterministic, and the two schema revisions have
/// identical semantics: any two equities decoded from the same logical
/// fields with identical arguments — by the same decoder twice, or by the
/// legacy and current decoders — are structurally equal.
pub proof fn lemma_equity_decode_deterministic(
    f: DefFields,
    instrument_id: InstrumentId,
    ts_init: u64,
    e1: Equity,
    e2: Equity,
)
    requires
        equity_post(f, instrument_id, ts_init, e1),
        equity_post(f, instrument_id, ts_init, e2),
    ensures
        crate::instruments::equity_equiv(e1, e2),
{
}

/// Futures-contract decoding is deterministic and schema-independent over
/// the logical fields.
pub proof fn lemma_futures_contract_decode_deterministic(
    f: DefFields,
    instrument_id: InstrumentId,
    ts_init: u64,
    c1: FuturesContract,
    c2: FuturesContract,
)
    requires
        futures_contract_post(f, instrument_id, ts_init, c1),
        futures_contract_post(f, instrument_id, ts_init, c2),
    ensures
        crate::instruments::futures_contract_equiv(c1, c2),
{
}

/// Futures-spread decoding is deterministic and schema-independent over the
/// logical fields.
pub proof fn lemma_futures_spread_decode_deterministic(
    f: DefFields,
    instrument_id: InstrumentId,
    ts_init: u64,
    c1: FuturesSpread,
    c2: FuturesSpread,
)
    requires
        futures_spread_post(f, instrument_id, ts_init, c1),
        futures_spread_post(f, instrument_id, ts_init, c2),
    ensures
        crate::instruments::futures_spread_equiv(c1, c2),
{
}

/// Options-contract decoding is deterministic and schema-independent over
/// the logical fields.
pub proof fn lemma_options_contract_decode_deterministic(
    f: DefFields,
    instrument_id: InstrumentId,
    ts_init: u64,
    o1: OptionsContract,
    o2: OptionsContract,
)
    requires
        options_contract_post(f, instrument_id, ts_init, o1),
        options_contract_post(f, instrument_id, ts_init, o2),
    ensures
        crate::instruments::options_contract_equiv(o1, o2),
{
}

/// Options-spread decoding is deterministic and schema-independent over the
/// logical fields.
pub proof fn lemma_options_spread_decode_deterministic(
    f: DefFields,
    instrument_id: InstrumentId,
    ts_init: u64,
    o1: OptionsSpread,
    o2: OptionsSpread,
)
    requires
        options_spread_post(f, instrument_id, ts_init, o1),
        options_spread_post(f, instrument_id, ts_init, o2),
    ensures
        crate::instruments::options_spread_equiv(o1, o2),
{
}

} // verus!
