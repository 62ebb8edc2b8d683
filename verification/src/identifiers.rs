//! Instrument and trade identifiers, and the decimal rendering of wire
//! sequence numbers into trade identifiers.

use vstd::prelude::*;

use crate::errors::DecodeError;
use crate::types::pow10;
use vstd::pervasive::unreached;
use vstd::string::StrSliceExecFns;
use vstd::string::StringExecFnsIsAscii;
use vstd::utf8::is_ascii_chars;

verus! {

/// Identifies an instrument: a symbol at a venue.
#[derive(Debug)]
pub struct InstrumentId {
    pub symbol: String,
    pub venue: String,
}

impl InstrumentId {
    pub fn new(symbol: String, venue: String) -> (r: InstrumentId)
        ensures
            r.symbol == symbol,
            r.venue == venue,
    {
        InstrumentId { symbol, venue }
    }
}

impl Clone for InstrumentId {
    fn clone(&self) -> (r: Self)
        ensures
            r == *self,
    {
        InstrumentId { symbol: self.symbol.clone(), venue: self.venue.clone() }
    }
}

/// Structural equality of instrument identifiers: same symbol and venue
/// characters.
pub open spec fn instrument_id_equiv(a: InstrumentId, b: InstrumentId) -> bool {
    a.symbol@ == b.symbol@ && a.venue@ == b.venue@
}

/// A trade identifier is non-empty ASCII text of at most 36 characters.
pub open spec fn trade_id_chars_wf(s: Seq<char>) -> bool {
    &&& 1 <= s.len() <= 36
    &&& is_ascii_chars(s)
}

/// Identifies a single trade.
#[derive(Debug)]
pub struct TradeId {
    pub value: String,
}

impl TradeId {
    /// Validates and wraps a trade-identifier string.
    pub fn new(value: String) -> (r: Result<TradeId, DecodeError>)
        ensures
            r is Ok <==> trade_id_chars_wf(value@),
            r matches Ok(t) ==> t.value == value,
            r matches Err(e) ==> e == DecodeError::InvalidTradeId,
    {
        let len = value.as_str().unicode_len();
        if len >= 1 && len <= 36 && value.is_ascii() {
            Ok(TradeId { value })
        } else {
            Err(DecodeError::InvalidTradeId)
        }
    }
}

/// The decimal digit character for `d`.
pub open spec fn dec_digit(d: nat) -> char {
    if d == 0 {
        '0'
    } else if d == 1 {
        '1'
    } else if d == 2 {
        '2'
    } else if d == 3 {
        '3'
    } else if d == 4 {
        '4'
    } else if d == 5 {
        '5'
    } else if d == 6 {
        '6'
    } else if d == 7 {
        '7'
    } else if d == 8 {
        '8'
    } else {
        '9'
    }
}

/// The decimal rendering of `n`, most significant digit first, without
/// leading zeros (`0` renders as "0").
pub open spec fn dec_str(n: nat) -> Seq<char>
    decreases n,
{
    if n < 10 {
        seq![dec_digit(n)]
    } else {
        dec_str(n / 10).push(dec_digit(n % 10))
    }
}

/// A decimal rendering is non-empty and all its characters are digits,
/// hence ASCII.
pub proof fn lemma_dec_str_ascii(n: nat)
    ensures
        dec_str(n).len() >= 1,
        is_ascii_chars(dec_str(n)),
    decreases n,
{
    if n < 10 {
        assert forall|i: int| 0 <= i < dec_str(n).len() implies '\0' <= #[trigger] dec_str(
            n,
        )[i] <= '\u{7f}' by {
            assert(dec_str(n)[i] == dec_digit(n));
        }
    } else {
        lemma_dec_str_ascii(n / 10);
        assert forall|i: int| 0 <= i < dec_str(n).len() implies '\0' <= #[trigger] dec_str(
            n,
        )[i] <= '\u{7f}' by {
            if i < dec_str(n / 10).len() {
                assert(dec_str(n)[i] == dec_str(n / 10)[i]);
            } else {
                assert(dec_str(n)[i] == dec_digit(n % 10));
            }
        }
    }
}

/// A value below `10^k` renders in at most `k` digits.
pub proof fn lemma_dec_str_len(n: nat, k: nat)
    requires
        k >= 1,
        n < pow10(k),
    ensures
        dec_str(n).len() <= k,
    decreases k,
{
    if n < 10 {
    } else {
        assert(pow10(k) == 10 * pow10((k - 1) as nat));
        assert(n / 10 < pow10((k - 1) as nat)) by (nonlinear_arith)
            requires
                n < 10 * pow10((k - 1) as nat),
        ;
        assert((k - 1) as nat >= 1) by {
            if k == 1 {
                crate::types::lemma_pow10_values();
            }
        }
        lemma_dec_str_len(n / 10, (k - 1) as nat);
    }
}

/// Relies on itoa's `Buffer::format`: it writes the decimal representation
/// of an unsigned integer, most significant digit first, no leading zeros.
#[verifier::external_body]
fn format_u32_decimal(n: u32) -> (r: String)
    ensures
        r@ == dec_str(n as nat),
{
    let mut buffer = itoa::Buffer::new();
    buffer.format(n).to_owned()
}

/// Synthesizes the trade identifier for a wire sequence number: its decimal
/// rendering.
pub fn trade_id_from_sequence(sequence: u32) -> (r: TradeId)
    ensures
        r.value@ == dec_str(sequence as nat),
{
    let rendered = format_u32_decimal(sequence);
    proof {
        lemma_dec_str_ascii(sequence as nat);
        crate::types::lemma_pow10_values();
        lemma_dec_str_len(sequence as nat, 10);
    }
    match TradeId::new(rendered) {
        Ok(t) => t,
        Err(_) => unreached(),
    }
}

} // verus!
