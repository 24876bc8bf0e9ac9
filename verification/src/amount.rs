//! Amounts of money and their units.

use vstd::prelude::*;

verus! {

/// The unit of an amount.
#[derive(Clone, Debug, PartialEq, Eq)]
pub enum CurrencyUnit {
    Sat,
    Msat,
    Usd,
    Eur,
    Auth,
    Custom(String),
}

/// An amount of some unit.
#[derive(Clone, Debug, PartialEq, Eq)]
pub struct Amount {
    pub value: u64,
    pub unit: CurrencyUnit,
}

/// The unit of an amount, as a value.
pub enum CurrencyUnitView {
    Sat,
    Msat,
    Usd,
    Eur,
    Auth,
    Custom(Seq<char>),
}

/// An amount of some unit, as a value.
pub struct AmountView {
    pub value: u64,
    pub unit: CurrencyUnitView,
}

impl View for CurrencyUnit {
    type V = CurrencyUnitView;

    open spec fn view(&self) -> CurrencyUnitView {
        match self {
            CurrencyUnit::Sat => CurrencyUnitView::Sat,
            CurrencyUnit::Msat => CurrencyUnitView::Msat,
            CurrencyUnit::Usd => CurrencyUnitView::Usd,
            CurrencyUnit::Eur => CurrencyUnitView::Eur,
            CurrencyUnit::Auth => CurrencyUnitView::Auth,
            CurrencyUnit::Custom(name) => CurrencyUnitView::Custom(name@),
        }
    }
}

impl View for Amount {
    type V = AmountView;

    open spec fn view(&self) -> AmountView {
        AmountView { value: self.value, unit: self.unit@ }
    }
}

impl AmountView {
    /// The amount in whole satoshis, rounded down; none if its unit is not a
    /// unit of bitcoin.
    pub open spec fn sats(self) -> Option<u64> {
        match self.unit {
            CurrencyUnitView::Sat => Some(self.value),
            CurrencyUnitView::Msat => Some((self.value / 1000) as u64),
            _ => None,
        }
    }
}

/// An amount of that many satoshis.
pub open spec fn sat_amount(value: u64) -> AmountView {
    AmountView { value, unit: CurrencyUnitView::Sat }
}

/// The reason why an amount cannot be expressed in another unit.
#[verifier::external_type_specification]
#[verifier::external_body]
pub struct ExAmountError(cdk_common::amount::Error);

/// `cdk_common::Amount::to_sat`: an amount in satoshis as it is, one in
/// millisatoshis divided by a thousand and rounded down, an error for any other
/// unit.
#[verifier::external_body]
fn convert_to_sat(amount: &Amount) -> (r: Result<u64, cdk_common::amount::Error>)
    ensures
        match r {
            Ok(sats) => amount@.sats() == Some(sats),
            Err(_) => amount@.sats() is None,
        },
{
    let unit = match &amount.unit {
        CurrencyUnit::Sat => cdk_common::CurrencyUnit::Sat,
        CurrencyUnit::Msat => cdk_common::CurrencyUnit::Msat,
        CurrencyUnit::Usd => cdk_common::CurrencyUnit::Usd,
        CurrencyUnit::Eur => cdk_common::CurrencyUnit::Eur,
        CurrencyUnit::Auth => cdk_common::CurrencyUnit::Auth,
        CurrencyUnit::Custom(name) => cdk_common::CurrencyUnit::Custom(name.clone()),
    };
    cdk_common::Amount::new(amount.value, unit).to_sat()
}

impl CurrencyUnit {
    /// A copy of the unit.
    pub fn copy(&self) -> (r: CurrencyUnit)
        ensures
            r@ == self@,
    {
        match self {
            CurrencyUnit::Sat => CurrencyUnit::Sat,
            CurrencyUnit::Msat => CurrencyUnit::Msat,
            CurrencyUnit::Usd => CurrencyUnit::Usd,
            CurrencyUnit::Eur => CurrencyUnit::Eur,
            CurrencyUnit::Auth => CurrencyUnit::Auth,
            CurrencyUnit::Custom(name) => CurrencyUnit::Custom(name.clone()),
        }
    }
}

impl Amount {
    /// An amount of the given unit.
    pub fn new(value: u64, unit: CurrencyUnit) -> (r: Amount)
        ensures
            r@ == (AmountView { value, unit: unit@ }),
    {
        Amount { value, unit }
    }

    /// The amount in whole satoshis; none if its unit is not a unit of bitcoin.
    pub fn to_sat(&self) -> (r: Option<u64>)
        ensures
            r == self@.sats(),
    {
        match convert_to_sat(self) {
            Ok(sats) => Some(sats),
            Err(_) => None,
        }
    }
}

/// The number of satoshis that covers an amount in millisatoshis.
pub open spec fn msat_ceil(msat: u64) -> u64 {
    ((msat + 999) / 1000) as u64
}

/// The number of satoshis that covers an amount in millisatoshis.
pub fn msat_to_sat_ceil(msat: u64) -> (r: u64)
    ensures
        r == msat_ceil(msat),
{
    if msat % 1000 == 0 {
        msat / 1000
    } else {
        msat / 1000 + 1
    }
}

/// Rounding up covers the amount, with less than one satoshi to spare.
pub proof fn msat_ceil_covers(msat: u64)
    ensures
        msat <= 1000 * msat_ceil(msat) < msat + 1000,
{
}

} // verus!
