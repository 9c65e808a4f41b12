//! Types of outside crates that the library carries through without looking inside.

use vstd::prelude::*;

verus! {

/// A decimal number of `rust_decimal`; prices and sizes are carried as they were decoded.
#[verifier::external_type_specification]
#[verifier::external_body]
pub struct ExDecimal(rust_decimal::Decimal);

/// `Decimal` derives `Copy` and `Clone` in `rust_decimal`, so a clone is the same value.
pub assume_specification[ <rust_decimal::Decimal as Clone>::clone ](d: &rust_decimal::Decimal) -> (res: rust_decimal::Decimal)
    ensures
        res == *d,
;

} // verus!
