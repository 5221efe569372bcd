//! Conversions between linear sample values and decibels relative to full
//! scale.

use vstd::prelude::*;
use crate::traits::{
    is_finite,
    is_from_usize,
    is_gt,
    is_log10,
    is_negation,
    is_one,
    is_power,
    is_product,
    is_quotient,
    is_zero,
    Sample,
};

verus! {

/// `floor` may be the level below which all is taken as silence: -120 dBFS.
pub open spec fn is_floor_db<T: Sample>(floor: T) -> bool {
    exists|depth: T| is_from_usize(120, depth) && is_negation(depth, floor)
}

/// `floor` may be the sample value below which all is taken as silence:
/// one millionth of full scale.
pub open spec fn is_floor_sample<T: Sample>(floor: T) -> bool {
    exists|one: T, million: T|
        {
            &&& is_one(one)
            &&& is_from_usize(1_000_000, million)
            &&& is_quotient(one, million, floor)
        }
}

/// The test whether `value` is above `floor` and finite may answer
/// `passes`. Finiteness is looked at only when the value is above the
/// floor.
pub open spec fn is_above_test<T: Sample>(value: T, floor: T, passes: bool) -> bool {
    exists|above: bool|
        {
            &&& is_gt(value, floor, above)
            &&& if above {
                is_finite(value, passes)
            } else {
                !passes
            }
        }
}

/// `db` may be the level of `sample` in decibels, `20 * log10(sample)`.
pub open spec fn is_decibels<T: Sample>(sample: T, db: T) -> bool {
    exists|twenty: T, magnitude: T|
        {
            &&& is_from_usize(20, twenty)
            &&& is_log10(sample, magnitude)
            &&& is_product(twenty, magnitude, db)
        }
}

/// `sample` may be the sample value of a level of `db` decibels,
/// `10^(db / 20)`.
pub open spec fn is_linear<T: Sample>(db: T, sample: T) -> bool {
    exists|ten: T, twenty: T, exponent: T|
        {
            &&& is_from_usize(10, ten)
            &&& is_from_usize(20, twenty)
            &&& is_quotient(db, twenty, exponent)
            &&& is_power(ten, exponent, sample)
        }
}

/// `db` may be what `to_db` gives for `sample`: its level in decibels if it
/// is found above the floor and finite, and the floor of -120 dBFS if not.
pub open spec fn is_to_db<T: Sample>(sample: T, db: T) -> bool {
    exists|floor: T, audible: bool|
        {
            &&& #[trigger] is_above_test(sample, floor, audible)
            &&& is_floor_sample(floor)
            &&& if audible {
                is_decibels(sample, db)
            } else {
                is_floor_db(db)
            }
        }
}

/// `sample` may be what `to_sample` gives for `db_value`: its sample value
/// if it is found above the floor of -120 dBFS and finite, and zero if not.
pub open spec fn is_to_sample<T: Sample>(db_value: T, sample: T) -> bool {
    exists|floor: T, audible: bool|
        {
            &&& #[trigger] is_above_test(db_value, floor, audible)
            &&& is_floor_db(floor)
            &&& if audible {
                is_linear(db_value, sample)
            } else {
                is_zero(sample)
            }
        }
}

/// Makes the level of -120 dBFS.
pub fn floor_db<T: Sample>() -> (floor: T)
    ensures
        is_floor_db(floor),
{
    T::from_usize(120).neg()
}

/// Makes the sample value of one millionth of full scale.
pub fn floor_sample<T: Sample>() -> (floor: T)
    ensures
        is_floor_sample(floor),
{
    T::one().div(T::from_usize(1_000_000))
}

/// Tests whether `value` is above `floor` and finite.
pub fn is_above<T: Sample>(value: T, floor: T) -> (passes: bool)
    ensures
        is_above_test(value, floor, passes),
{
    value.gt(floor) && value.is_finite()
}

/// Converts a sample value to a dBFS value.
///
/// A sample that is not above one millionth of full scale, or not finite,
/// is taken to be at -120 dBFS.
pub fn to_db<T: Sample>(sample: T) -> (db: T)
    ensures
        is_to_db(sample, db),
{
    if is_above(sample, floor_sample()) {
        T::from_usize(20).mul(sample.log10())
    } else {
        floor_db()
    }
}

/// Converts a dBFS value to a sample value.
///
/// A level that is not above -120 dBFS, or not finite, is taken to be
/// silence: the sample value is zero.
pub fn to_sample<T: Sample>(db_value: T) -> (sample: T)
    ensures
        is_to_sample(db_value, sample),
{
    if is_above(db_value, floor_db()) {
        T::from_usize(10).powf(db_value.div(T::from_usize(20)))
    } else {
        T::zero()
    }
}

} // verus!
