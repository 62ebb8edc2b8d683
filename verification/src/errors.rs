//! Decode failures. Every decoder surfaces its failure to the caller; none
//! is retried, logged or swallowed.

use vstd::prelude::*;

verus! {

/// Why a record failed to decode. Codes with no safe neutral value, malformed
/// embedded text, structural arity violations and unknown tags are all fatal.
#[derive(Clone, Copy, Debug, PartialEq, Eq, Structural)]
pub enum DecodeError {
    /// A book-action code outside the documented protocol.
    InvalidBookAction(u8),
    /// An option-kind code outside the documented protocol.
    InvalidOptionKind(u8),
    /// A classification code string of fewer than 3 characters.
    CfiTooShort,
    /// A fixed-point value was requested at an unrepresentable precision.
    InvalidPrecision(u8),
    /// A whole-unit quantity that is negative or too large to scale.
    InvalidQuantity,
    /// A trade identifier that is empty, too long, or not ASCII.
    InvalidTradeId,
    /// An embedded byte buffer that does not hold well-formed text.
    MalformedText,
    /// A currency code with no known currency.
    UnknownCurrency,
    /// A bar record whose sub-type tag is not a supported aggregation.
    UnsupportedBarAggregation(u8),
    /// A record-type tag this layer has not been extended to understand.
    UnsupportedRecordType(u8),
    /// An instrument-class code that is known but unimplemented, or unknown.
    UnsupportedInstrumentClass(u8),
    /// A depth snapshot without exactly ten levels.
    InvalidDepthLevels,
}

} // verus!
