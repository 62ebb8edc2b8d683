//! Domain enumerations and the single-code wire decoders that produce them.

use vstd::prelude::*;

use crate::errors::DecodeError;

verus! {

/// Side of an order resting in (or hitting) the book.
#[derive(Clone, Copy, Debug, PartialEq, Eq, Structural)]
pub enum OrderSide {
    NoOrderSide,
    Buy,
    Sell,
}

/// Side of the aggressing party in a trade.
#[derive(Clone, Copy, Debug, PartialEq, Eq, Structural)]
pub enum AggressorSide {
    NoAggressor,
    Buyer,
    Seller,
}

/// A mutation of the order book.
#[derive(Clone, Copy, Debug, PartialEq, Eq, Structural)]
pub enum BookAction {
    Add,
    Update,
    Delete,
    Clear,
}

/// Whether an option is a call or a put.
#[derive(Clone, Copy, Debug, PartialEq, Eq, Structural)]
pub enum OptionKind {
    Call,
    Put,
}

/// Broad asset class of an instrument.
#[derive(Clone, Copy, Debug, PartialEq, Eq, Structural)]
pub enum AssetClass {
    Commodity,
    Debt,
    Equity,
    Index,
}

/// Broad instrument class hinted by a classification code.
#[derive(Clone, Copy, Debug, PartialEq, Eq, Structural)]
pub enum InstrumentClass {
    Future,
}

/// The time span a bar aggregates.
#[derive(Clone, Copy, Debug, PartialEq, Eq, Structural)]
pub enum BarAggregation {
    Second,
    Minute,
    Hour,
    Day,
}

/// Who aggregated a bar.
#[derive(Clone, Copy, Debug, PartialEq, Eq, Structural)]
pub enum AggregationSource {
    External,
    Internal,
}

/// Which price series a bar aggregates.
#[derive(Clone, Copy, Debug, PartialEq, Eq, Structural)]
pub enum PriceType {
    Bid,
    Ask,
    Mid,
    Last,
}

/// The order-side mapping: `'A'` (0x41) is Sell, `'B'` (0x42) is Buy, and any
/// other code is the neutral sentinel.
pub open spec fn spec_order_side(c: u8) -> OrderSide {
    if c == 65 {
        OrderSide::Sell
    } else if c == 66 {
        OrderSide::Buy
    } else {
        OrderSide::NoOrderSide
    }
}

/// Decodes an order-side wire code; unknown codes map to the neutral
/// sentinel rather than failing.
pub fn parse_order_side(c: u8) -> (r: OrderSide)
    ensures
        r == spec_order_side(c),
{
    if c == 65 {
        OrderSide::Sell
    } else if c == 66 {
        OrderSide::Buy
    } else {
        OrderSide::NoOrderSide
    }
}

/// The aggressor-side mapping: `'A'` is Seller, `'B'` is Buyer, any other
/// code the neutral sentinel.
pub open spec fn spec_aggressor_side(c: u8) -> AggressorSide {
    if c == 65 {
        AggressorSide::Seller
    } else if c == 66 {
        AggressorSide::Buyer
    } else {
        AggressorSide::NoAggressor
    }
}

/// Decodes an aggressor-side wire code; unknown codes map to the neutral
/// sentinel rather than failing.
pub fn parse_aggressor_side(c: u8) -> (r: AggressorSide)
    ensures
        r == spec_aggressor_side(c),
{
    if c == 65 {
        AggressorSide::Seller
    } else if c == 66 {
        AggressorSide::Buyer
    } else {
        AggressorSide::NoAggressor
    }
}

/// The book-action mapping: `'A'` Add, `'C'` Delete, `'F'` and `'M'` Update,
/// `'R'` Clear; any other code has no safe neutral value and fails.
pub open spec fn spec_book_action(c: u8) -> Option<BookAction> {
    if c == 65 {
        Some(BookAction::Add)
    } else if c == 67 {
        Some(BookAction::Delete)
    } else if c == 70 || c == 77 {
        Some(BookAction::Update)
    } else if c == 82 {
        Some(BookAction::Clear)
    } else {
        None
    }
}

/// Decodes a book-action wire code; a code outside the documented protocol
/// is a fatal decode error, never silently guessed.
pub fn parse_book_action(c: u8) -> (r: Result<BookAction, DecodeError>)
    ensures
        r is Ok <==> spec_book_action(c) is Some,
        spec_book_action(c) matches Some(a) ==> r == Ok::<BookAction, DecodeError>(a),
        spec_book_action(c) is None ==> r == Err::<BookAction, DecodeError>(
            DecodeError::InvalidBookAction(c),
        ),
{
    if c == 65 {
        Ok(BookAction::Add)
    } else if c == 67 {
        Ok(BookAction::Delete)
    } else if c == 70 || c == 77 {
        Ok(BookAction::Update)
    } else if c == 82 {
        Ok(BookAction::Clear)
    } else {
        Err(DecodeError::InvalidBookAction(c))
    }
}

/// Every book action is reachable from some valid wire code: the decoder is
/// surjective onto {Add, Update, Delete, Clear}.
pub proof fn lemma_book_action_surjective(a: BookAction)
    ensures
        exists|c: u8| #[trigger] spec_book_action(c) == Some(a),
{
    match a {
        BookAction::Add => {
            assert(spec_book_action(65) == Some(BookAction::Add));
        },
        BookAction::Update => {
            assert(spec_book_action(70) == Some(BookAction::Update));
        },
        BookAction::Delete => {
            assert(spec_book_action(67) == Some(BookAction::Delete));
        },
        BookAction::Clear => {
            assert(spec_book_action(82) == Some(BookAction::Clear));
        },
    }
}

/// The option-kind mapping: `'C'` Call, `'P'` Put; any other code fails.
pub open spec fn spec_option_kind(c: u8) -> Option<OptionKind> {
    if c == 67 {
        Some(OptionKind::Call)
    } else if c == 80 {
        Some(OptionKind::Put)
    } else {
        None
    }
}

/// Decodes an option-kind wire code; a code outside the documented protocol
/// is a fatal decode error.
pub fn parse_option_kind(c: u8) -> (r: Result<OptionKind, DecodeError>)
    ensures
        r is Ok <==> spec_option_kind(c) is Some,
        spec_option_kind(c) matches Some(k) ==> r == Ok::<OptionKind, DecodeError>(k),
        spec_option_kind(c) is None ==> r == Err::<OptionKind, DecodeError>(
            DecodeError::InvalidOptionKind(c),
        ),
{
    if c == 67 {
        Ok(OptionKind::Call)
    } else if c == 80 {
        Ok(OptionKind::Put)
    } else {
        Err(DecodeError::InvalidOptionKind(c))
    }
}

/// A book-update record is a trade representation rather than a book
/// mutation when its decoded order side is the neutral value or its raw
/// action code is `'T'` (0x54).
pub open spec fn spec_is_trade_msg(order_side: OrderSide, action: u8) -> bool {
    order_side == OrderSide::NoOrderSide || action == 84
}

/// Tells a trade-style book-update record from a book mutation.
pub fn is_trade_msg(order_side: OrderSide, action: u8) -> (r: bool)
    ensures
        r == spec_is_trade_msg(order_side, action),
{
    order_side == OrderSide::NoOrderSide || action == 84
}

} // verus!
