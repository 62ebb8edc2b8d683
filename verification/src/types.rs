//! Fixed-point prices and quantities, currencies, and the fixed-point
//! converter for raw scaled integers.

use vstd::prelude::*;

use crate::errors::DecodeError;

verus! {

/// Digits after the decimal point of the fixed-point wire encoding.
pub const FIXED_PRECISION: u8 = 9;

/// The protocol-wide display multiplier that turns a raw whole-unit count
/// into a fixed-point mantissa: one unit is `10^9` raw.
pub const FIXED_SCALAR: u64 = 1_000_000_000;

/// The largest whole-unit count that still fits the fixed-point mantissa
/// once multiplied by [`FIXED_SCALAR`].
pub const QUANTITY_WHOLE_MAX: u64 = 18_446_744_073;

/// `10^e`.
pub open spec fn pow10(e: nat) -> nat
    decreases e,
{
    if e == 0 {
        1
    } else {
        10 * pow10((e - 1) as nat)
    }
}

pub proof fn lemma_pow10_values()
    ensures
        pow10(0) == 1,
        pow10(1) == 10,
        pow10(2) == 100,
        pow10(3) == 1000,
        pow10(4) == 10_000,
        pow10(5) == 100_000,
        pow10(6) == 1_000_000,
        pow10(7) == 10_000_000,
        pow10(8) == 100_000_000,
        pow10(9) == 1_000_000_000,
        pow10(10) == 10_000_000_000,
{
    reveal_with_fuel(pow10, 11);
}

/// A price: an integer mantissa at a decimal precision.
#[derive(Clone, Copy, Debug, PartialEq, Eq, Structural)]
pub struct Price {
    pub raw: i64,
    pub precision: u8,
}

/// A price is well formed when its precision is representable.
pub open spec fn price_wf(p: Price) -> bool {
    p.precision <= FIXED_PRECISION
}

impl Price {
    /// Reinterprets a raw scaled integer at the given precision.
    pub fn from_raw(raw: i64, precision: u8) -> (r: Result<Price, DecodeError>)
        ensures
            r is Ok <==> precision <= FIXED_PRECISION,
            precision <= FIXED_PRECISION ==> r == Ok::<Price, DecodeError>(
                Price { raw, precision },
            ),
            precision > FIXED_PRECISION ==> r == Err::<Price, DecodeError>(
                DecodeError::InvalidPrecision(precision),
            ),
            r matches Ok(p) ==> price_wf(p),
    {
        if precision > FIXED_PRECISION {
            Err(DecodeError::InvalidPrecision(precision))
        } else {
            Ok(Price { raw, precision })
        }
    }
}

/// A quantity: an unsigned integer mantissa at a decimal precision.
#[derive(Clone, Copy, Debug, PartialEq, Eq, Structural)]
pub struct Quantity {
    pub raw: u64,
    pub precision: u8,
}

/// A quantity is well formed when its precision is representable.
pub open spec fn quantity_wf(q: Quantity) -> bool {
    q.precision <= FIXED_PRECISION
}

impl Quantity {
    /// Reinterprets a raw scaled integer at the given precision.
    pub fn from_raw(raw: u64, precision: u8) -> (r: Result<Quantity, DecodeError>)
        ensures
            r is Ok <==> precision <= FIXED_PRECISION,
            precision <= FIXED_PRECISION ==> r == Ok::<Quantity, DecodeError>(
                Quantity { raw, precision },
            ),
            precision > FIXED_PRECISION ==> r == Err::<Quantity, DecodeError>(
                DecodeError::InvalidPrecision(precision),
            ),
            r matches Ok(q) ==> quantity_wf(q),
    {
        if precision > FIXED_PRECISION {
            Err(DecodeError::InvalidPrecision(precision))
        } else {
            Ok(Quantity { raw, precision })
        }
    }

    /// Scales a whole-unit count by the fixed display multiplier and
    /// reinterprets it at the given precision.
    pub fn from_whole(value: u64, precision: u8) -> (r: Result<Quantity, DecodeError>)
        ensures
            r is Ok <==> precision <= FIXED_PRECISION && value <= QUANTITY_WHOLE_MAX,
            r is Ok ==> r == Ok::<Quantity, DecodeError>(
                Quantity { raw: (value * FIXED_SCALAR) as u64, precision },
            ),
            precision > FIXED_PRECISION ==> r == Err::<Quantity, DecodeError>(
                DecodeError::InvalidPrecision(precision),
            ),
            precision <= FIXED_PRECISION && value > QUANTITY_WHOLE_MAX ==> r == Err::<
                Quantity,
                DecodeError,
            >(DecodeError::InvalidQuantity),
            r matches Ok(q) ==> quantity_wf(q),
    {
        if precision > FIXED_PRECISION {
            Err(DecodeError::InvalidPrecision(precision))
        } else if value > QUANTITY_WHOLE_MAX {
            Err(DecodeError::InvalidQuantity)
        } else {
            Ok(Quantity { raw: value * FIXED_SCALAR, precision })
        }
    }
}

/// The currencies this layer can resolve from an embedded currency code.
#[derive(Clone, Copy, Debug, PartialEq, Eq, Structural)]
pub enum Currency {
    Usd,
    Eur,
    Gbp,
    Jpy,
    Aud,
    Cad,
    Chf,
    Cny,
    Hkd,
    Sgd,
}

impl Currency {
    /// Decimal precision of the currency's smallest representable unit.
    pub open spec fn spec_precision(self) -> u8 {
        match self {
            Currency::Jpy => 0,
            _ => 2,
        }
    }

    pub fn precision(self) -> (r: u8)
        ensures
            r == self.spec_precision(),
            r <= FIXED_PRECISION,
    {
        match self {
            Currency::Jpy => 0,
            _ => 2,
        }
    }
}

/// Which currency an embedded currency-code string names, if any.
pub open spec fn spec_currency_from_code(s: Seq<char>) -> Option<Currency> {
    if s == "USD"@ {
        Some(Currency::Usd)
    } else if s == "EUR"@ {
        Some(Currency::Eur)
    } else if s == "GBP"@ {
        Some(Currency::Gbp)
    } else if s == "JPY"@ {
        Some(Currency::Jpy)
    } else if s == "AUD"@ {
        Some(Currency::Aud)
    } else if s == "CAD"@ {
        Some(Currency::Cad)
    } else if s == "CHF"@ {
        Some(Currency::Chf)
    } else if s == "CNY"@ {
        Some(Currency::Cny)
    } else if s == "HKD"@ {
        Some(Currency::Hkd)
    } else if s == "SGD"@ {
        Some(Currency::Sgd)
    } else {
        None
    }
}

/// Compares two text slices by their characters.
pub(crate) fn str_eq(a: &str, b: &str) -> (r: bool)
    ensures
        r == (a@ == b@),
{
    let owned_a: String = a.to_owned();
    let owned_b: String = b.to_owned();
    owned_a == owned_b
}

/// Resolves an embedded currency code; an unknown code is a fatal decode
/// error.
pub fn currency_from_code(code: &str) -> (r: Result<Currency, DecodeError>)
    ensures
        r is Ok <==> spec_currency_from_code(code@) is Some,
        spec_currency_from_code(code@) matches Some(c) ==> r == Ok::<Currency, DecodeError>(c),
        spec_currency_from_code(code@) is None ==> r == Err::<Currency, DecodeError>(
            DecodeError::UnknownCurrency,
        ),
{
    if str_eq(code, "USD") {
        Ok(Currency::Usd)
    } else if str_eq(code, "EUR") {
        Ok(Currency::Eur)
    } else if str_eq(code, "GBP") {
        Ok(Currency::Gbp)
    } else if str_eq(code, "JPY") {
        Ok(Currency::Jpy)
    } else if str_eq(code, "AUD") {
        Ok(Currency::Aud)
    } else if str_eq(code, "CAD") {
        Ok(Currency::Cad)
    } else if str_eq(code, "CHF") {
        Ok(Currency::Chf)
    } else if str_eq(code, "CNY") {
        Ok(Currency::Cny)
    } else if str_eq(code, "HKD") {
        Ok(Currency::Hkd)
    } else if str_eq(code, "SGD") {
        Ok(Currency::Sgd)
    } else {
        Err(DecodeError::UnknownCurrency)
    }
}

/// One unit at the currency's smallest representable precision: the price
/// `10^-precision`, whose mantissa at that precision is 1.
pub open spec fn spec_unit_price(c: Currency) -> Price {
    Price { raw: 1, precision: c.spec_precision() }
}

/// What the minimum-price-increment decoder returns: raw zero and the
/// sentinel "unset" maximum both stand for one unit at the currency's
/// precision; any other raw value is taken at that precision directly.
pub open spec fn spec_min_price_increment(value: i64, c: Currency) -> Price {
    if value == 0 || value == i64::MAX {
        spec_unit_price(c)
    } else {
        Price { raw: value, precision: c.spec_precision() }
    }
}

/// Decodes a raw minimum price increment, substituting one unit at the
/// currency's smallest representable precision for the "unset" sentinels.
pub fn decode_min_price_increment(value: i64, currency: Currency) -> (r: Result<
    Price,
    DecodeError,
>)
    ensures
        r == Ok::<Price, DecodeError>(spec_min_price_increment(value, currency)),
        r matches Ok(p) ==> price_wf(p),
{
    let precision = currency.precision();
    if value == 0 || value == i64::MAX {
        Ok(Price { raw: 1, precision })
    } else {
        Price::from_raw(value, precision)
    }
}

} // verus!
