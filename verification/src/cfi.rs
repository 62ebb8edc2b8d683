//! The CFI classifier: a packed classification code string yields asset-class
//! and instrument-class hints.

use vstd::prelude::*;

use crate::enums::{AssetClass, InstrumentClass};
use crate::errors::DecodeError;
use vstd::string::StrSliceExecFns;

verus! {

/// The asset class a classification code implies: attribute 1 `'I'` forces
/// Index whatever the category says; otherwise category `'D'` is Debt and
/// `'E'` is Equity; anything else carries no hint.
pub open spec fn spec_cfi_asset_class(category: char, attribute1: char) -> Option<AssetClass> {
    if attribute1 == 'I' {
        Some(AssetClass::Index)
    } else if category == 'D' {
        Some(AssetClass::Debt)
    } else if category == 'E' {
        Some(AssetClass::Equity)
    } else {
        None
    }
}

/// The instrument class a classification code implies: group `'I'` is a
/// future; anything else carries no hint.
pub open spec fn spec_cfi_instrument_class(group: char) -> Option<InstrumentClass> {
    if group == 'I' {
        Some(InstrumentClass::Future)
    } else {
        None
    }
}

/// What the classifier returns: a code of fewer than 3 characters fails;
/// otherwise the pair of hints read from category, group and attribute 1.
pub open spec fn spec_parse_cfi(s: Seq<char>) -> Option<
    (Option<AssetClass>, Option<InstrumentClass>),
> {
    if s.len() < 3 {
        None
    } else {
        Some((spec_cfi_asset_class(s[0], s[2]), spec_cfi_instrument_class(s[1])))
    }
}

/// Parses an ISO 10962-style classification code into asset-class and
/// instrument-class hints. Codes shorter than 3 characters fail.
pub fn parse_cfi_iso10926(value: &str) -> (r: Result<
    (Option<AssetClass>, Option<InstrumentClass>),
    DecodeError,
>)
    ensures
        r is Ok <==> spec_parse_cfi(value@) is Some,
        spec_parse_cfi(value@) matches Some(p) ==> r == Ok::<
            (Option<AssetClass>, Option<InstrumentClass>),
            DecodeError,
        >(p),
        spec_parse_cfi(value@) is None ==> r == Err::<
            (Option<AssetClass>, Option<InstrumentClass>),
            DecodeError,
        >(DecodeError::CfiTooShort),
{
    let len = value.unicode_len();
    if len < 3 {
        return Err(DecodeError::CfiTooShort);
    }
    let cfi_category = value.get_char(0);
    let cfi_group = value.get_char(1);
    let cfi_attribute1 = value.get_char(2);

    let asset_class = if cfi_attribute1 == 'I' {
        Some(AssetClass::Index)
    } else if cfi_category == 'D' {
        Some(AssetClass::Debt)
    } else if cfi_category == 'E' {
        Some(AssetClass::Equity)
    } else {
        None
    };

    let instrument_class = if cfi_group == 'I' {
        Some(InstrumentClass::Future)
    } else {
        None
    };

    Ok((asset_class, instrument_class))
}

} // verus!
