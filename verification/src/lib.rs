//! Normalization of schema-versioned market-data records into a uniform
//! domain model: order-book events, trades, quotes, depth snapshots, bars,
//! and instrument definitions.

pub mod cfi;
pub mod data;
pub mod decode;
pub mod definition;
pub mod enums;
pub mod errors;
pub mod identifiers;
pub mod instruments;
pub mod records;
pub mod text;
pub mod types;

pub use cfi::parse_cfi_iso10926;
pub use decode::{
    decode_bar_type, decode_mbo_msg, decode_mbp10_msg, decode_mbp1_msg, decode_ohlcv_msg,
    decode_record, decode_trade_msg, decode_ts_event_adjustment,
};
pub use definition::{
    decode_equity, decode_equity_v1, decode_futures_contract, decode_futures_contract_v1,
    decode_futures_spread, decode_futures_spread_v1, decode_instrument_def_msg,
    decode_instrument_def_msg_v1, decode_options_contract, decode_options_contract_v1,
    decode_options_spread, decode_options_spread_v1,
};
pub use enums::{
    is_trade_msg, parse_aggressor_side, parse_book_action, parse_option_kind, parse_order_side,
};
pub use errors::DecodeError;
pub use text::cstr_to_string;
pub use types::decode_min_price_increment;
