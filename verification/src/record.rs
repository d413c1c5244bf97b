//! The three record shapes and the operations that read, build and rewrite
//! them.
//!
//! A record owns all of its fields, nested records included. Each operation
//! takes its input by value and hands back a freshly built value, so nothing
//! is shared between an input and an output.

use vstd::prelude::*;
use crate::wrapping::{wrap_i32, wrapping_sum};

verus! {

/// What `age_by_ten` adds to an age.
pub const AGE_STEP: i32 = 10;

/// Identifier of every record built by `wrap_one_level`. An arbitrary fixed
/// value: it is not derived from the payload.
pub const ONE_LEVEL_ID: i32 = 1;

/// Identifier of every record built by `wrap_two_levels`. An arbitrary fixed
/// value: it is not derived from the payload.
pub const TWO_LEVEL_ID: i32 = 2;

/// What `bump_deep_id` adds to an identifier.
pub const ID_STEP: i32 = 2;

/// A name together with an age. Any string and any integer are accepted.
#[derive(Debug, PartialEq, Eq)]
pub struct FlatRecord {
    pub name: String,
    pub age: i32,
}

/// An identifier together with one flat record, which it owns.
#[derive(Debug, PartialEq, Eq)]
pub struct NestedRecord {
    pub id: i32,
    pub payload: FlatRecord,
}

/// An identifier together with one nested record, which it owns; the flat
/// record sits two levels down.
#[derive(Debug, PartialEq, Eq)]
pub struct DeepNestedRecord {
    pub id: i32,
    pub payload: NestedRecord,
}

/// Mathematical model of a `FlatRecord`.
pub struct FlatRecordView {
    pub name: Seq<char>,
    pub age: int,
}

/// Mathematical model of a `NestedRecord`.
pub struct NestedRecordView {
    pub id: int,
    pub payload: FlatRecordView,
}

/// Mathematical model of a `DeepNestedRecord`.
pub struct DeepNestedRecordView {
    pub id: int,
    pub payload: NestedRecordView,
}

impl View for FlatRecord {
    type V = FlatRecordView;

    open spec fn view(&self) -> FlatRecordView {
        FlatRecordView { name: self.name@, age: self.age as int }
    }
}

impl View for NestedRecord {
    type V = NestedRecordView;

    open spec fn view(&self) -> NestedRecordView {
        NestedRecordView { id: self.id as int, payload: self.payload@ }
    }
}

impl View for DeepNestedRecord {
    type V = DeepNestedRecordView;

    open spec fn view(&self) -> DeepNestedRecordView {
        DeepNestedRecordView { id: self.id as int, payload: self.payload@ }
    }
}

impl FlatRecordView {
    /// The record made of exactly this name and this age.
    pub open spec fn new(name: Seq<char>, age: int) -> FlatRecordView {
        FlatRecordView { name, age }
    }

    /// The age fits a signed 32-bit integer, as the age of every executable
    /// record does.
    pub open spec fn in_range(self) -> bool {
        i32::MIN <= self.age <= i32::MAX
    }

    /// The same name, ten years on (with 32-bit wraparound).
    pub open spec fn aged_by_ten(self) -> FlatRecordView {
        FlatRecordView { name: self.name, age: wrap_i32(self.age + AGE_STEP) }
    }

    /// The aged record under the fixed one-level identifier.
    pub open spec fn wrapped_once(self) -> NestedRecordView {
        NestedRecordView { id: ONE_LEVEL_ID as int, payload: self.aged_by_ten() }
    }

    /// The one-level wrapping under the fixed two-level identifier.
    pub open spec fn wrapped_twice(self) -> DeepNestedRecordView {
        DeepNestedRecordView { id: TWO_LEVEL_ID as int, payload: self.wrapped_once() }
    }
}

impl NestedRecordView {
    /// Identifier and payload age both fit a signed 32-bit integer.
    pub open spec fn in_range(self) -> bool {
        i32::MIN <= self.id <= i32::MAX && self.payload.in_range()
    }
}

impl DeepNestedRecordView {
    /// Every integer at every level fits a signed 32-bit integer.
    pub open spec fn in_range(self) -> bool {
        i32::MIN <= self.id <= i32::MAX && self.payload.in_range()
    }

    /// The same payload under an identifier two higher (with 32-bit
    /// wraparound).
    pub open spec fn bumped(self) -> DeepNestedRecordView {
        DeepNestedRecordView { id: wrap_i32(self.id + ID_STEP), payload: self.payload }
    }
}

impl Clone for FlatRecord {
    /// Duplicates both fields by value.
    fn clone(&self) -> (copy: Self)
        ensures
            copy == *self,
    {
        FlatRecord { name: self.name.clone(), age: self.age }
    }
}

impl Clone for NestedRecord {
    /// Duplicates the identifier and the owned payload by value.
    fn clone(&self) -> (copy: Self)
        ensures
            copy == *self,
    {
        NestedRecord { id: self.id, payload: self.payload.clone() }
    }
}

impl Clone for DeepNestedRecord {
    /// Duplicates the identifier and both owned levels by value.
    fn clone(&self) -> (copy: Self)
        ensures
            copy == *self,
    {
        DeepNestedRecord { id: self.id, payload: self.payload.clone() }
    }
}

/// Reads the age of a flat record.
pub fn extract_age(r: FlatRecord) -> (age: i32)
    ensures
        age == r@.age,
{
    r.age
}

/// Reads the age of the flat record one level down.
pub fn extract_age_through_one_level(n: NestedRecord) -> (age: i32)
    ensures
        age == n@.payload.age,
{
    n.payload.age
}

/// Reads the age of the flat record two levels down.
pub fn extract_age_through_two_levels(d: DeepNestedRecord) -> (age: i32)
    ensures
        age == d@.payload.payload.age,
{
    d.payload.payload.age
}

/// Builds a flat record from a name and an age, without any validation.
pub fn construct_flat(name: String, age: i32) -> (out: FlatRecord)
    ensures
        out == (FlatRecord { name, age }),
        out@ == FlatRecordView::new(name@, age as int),
{
    FlatRecord { name, age }
}

/// Builds a new flat record with the same name and the age raised by ten.
///
/// The addition wraps around at the ends of the signed 32-bit range; where
/// `r.age + 10` fits, the new age is exactly that.
pub fn age_by_ten(r: FlatRecord) -> (out: FlatRecord)
    ensures
        out@ == r@.aged_by_ten(),
        out.name == r.name,
        r.age + 10 <= i32::MAX ==> out.age == r.age + 10,
{
    FlatRecord { name: r.name, age: wrapping_sum(r.age, AGE_STEP) }
}

/// Wraps the aged record one level deep, under the fixed identifier 1.
pub fn wrap_one_level(r: FlatRecord) -> (out: NestedRecord)
    ensures
        out@ == r@.wrapped_once(),
        out.id == 1,
        out.payload.name == r.name,
{
    NestedRecord { id: ONE_LEVEL_ID, payload: age_by_ten(r) }
}

/// Wraps the aged record two levels deep, under the fixed identifier 2 around
/// the one-level wrapping.
pub fn wrap_two_levels(r: FlatRecord) -> (out: DeepNestedRecord)
    ensures
        out@ == r@.wrapped_twice(),
        out.id == 2,
        out.payload.payload.name == r.name,
{
    DeepNestedRecord { id: TWO_LEVEL_ID, payload: wrap_one_level(r) }
}

/// Raises the top-level identifier by two and passes the payload through
/// untouched.
///
/// The addition wraps around at the ends of the signed 32-bit range; where
/// `d.id + 2` fits, the new identifier is exactly that.
pub fn bump_deep_id(d: DeepNestedRecord) -> (out: DeepNestedRecord)
    ensures
        out@ == d@.bumped(),
        out.payload == d.payload,
        d.id + 2 <= i32::MAX ==> out.id == d.id + 2,
{
    DeepNestedRecord { id: wrapping_sum(d.id, ID_STEP), payload: d.payload }
}

} // verus!
