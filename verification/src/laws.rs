//! Laws that relate the operations to each other, proved over the models that
//! their contracts are stated in.

use vstd::prelude::*;
use crate::collection::{total_age, CollectionRecordView, RecordPolicy};
use crate::record::{
    DeepNestedRecord, DeepNestedRecordView, FlatRecord, FlatRecordView, NestedRecord,
};
use crate::wrapping::wrap_i32;

verus! {

/// The model of every executable record has all its integers in the signed
/// 32-bit range.
pub proof fn views_are_in_range(r: FlatRecord, n: NestedRecord, d: DeepNestedRecord)
    ensures
        r@.in_range(),
        n@.in_range(),
        d@.in_range(),
{
}

/// Round trip: the age read from a freshly constructed record is the age it
/// was constructed with, and so is the name.
pub proof fn construct_then_extract(name: Seq<char>, age: int)
    ensures
        FlatRecordView::new(name, age).age == age,
        FlatRecordView::new(name, age).name == name,
{
}

/// Ageing keeps the name and, as long as the result fits 32 bits, adds
/// exactly ten; negative ages pass through the same arithmetic.
pub proof fn ageing_adds_ten(r: FlatRecordView)
    requires
        r.in_range(),
        r.age + 10 <= i32::MAX,
    ensures
        r.aged_by_ten().name == r.name,
        r.aged_by_ten().age == r.age + 10,
{
}

/// Ageing an age within ten of the top of the range wraps around to the
/// bottom of the range.
pub proof fn ageing_wraps_at_the_top(r: FlatRecordView)
    requires
        r.in_range(),
        r.age + 10 > i32::MAX,
    ensures
        r.aged_by_ten().name == r.name,
        r.aged_by_ten().age == r.age + 10 - 0x1_0000_0000,
{
}

/// Every operation on records keeps all integers in the signed 32-bit range.
pub proof fn operations_stay_in_range(r: FlatRecordView, d: DeepNestedRecordView)
    requires
        d.in_range(),
    ensures
        r.aged_by_ten().in_range(),
        r.wrapped_once().in_range(),
        r.wrapped_twice().in_range(),
        d.bumped().in_range(),
{
}

/// The identifiers of the two wrappings are the fixed values 1 and 2, whatever
/// the record; the two-level wrapping holds the one-level wrapping, which
/// holds the aged record.
pub proof fn wrapping_layers(r: FlatRecordView)
    ensures
        r.wrapped_once().id == 1,
        r.wrapped_twice().id == 2,
        r.wrapped_once().payload == r.aged_by_ten(),
        r.wrapped_twice().payload == r.wrapped_once(),
        r.wrapped_twice().payload.payload.age == r.aged_by_ten().age,
        r.wrapped_twice().payload.payload.name == r.name,
{
}

/// Bumping leaves the payload as it is and, as long as the result fits 32
/// bits, adds exactly two to the identifier.
pub proof fn bumping_adds_two(d: DeepNestedRecordView)
    requires
        d.in_range(),
        d.id + 2 <= i32::MAX,
    ensures
        d.bumped().id == d.id + 2,
        d.bumped().payload == d.payload,
{
}

/// Bumping a freshly wrapped record gives identifier 4 over the same
/// one-level wrapping.
pub proof fn bumping_a_wrapping(r: FlatRecordView)
    ensures
        r.wrapped_twice().bumped().id == 4,
        r.wrapped_twice().bumped().payload == r.wrapped_once(),
{
}

/// The empty sequence sums to zero and a single record sums to its age.
pub proof fn total_age_of_small(r: FlatRecordView)
    ensures
        total_age(Seq::<FlatRecordView>::empty()) == 0,
        total_age(seq![r]) == r.age,
{
    assert(total_age(seq![r]) == total_age(seq![r].drop_last()) + seq![r].last().age);
}

/// Appending one record adds its age to the sum.
pub proof fn total_age_of_push(records: Seq<FlatRecordView>, r: FlatRecordView)
    ensures
        total_age(records.push(r)) == total_age(records) + r.age,
{
    assert(records.push(r).drop_last() =~= records);
}

/// The sum of a concatenation is the sum of the sums.
pub proof fn total_age_of_concat(front: Seq<FlatRecordView>, back: Seq<FlatRecordView>)
    ensures
        total_age(front + back) == total_age(front) + total_age(back),
    decreases back.len(),
{
    if back.len() > 0 {
        assert((front + back).drop_last() =~= front + back.drop_last());
        total_age_of_concat(front, back.drop_last());
    }
}

/// Where the mathematical sum of the ages fits 32 bits, wrapping it changes
/// nothing, so `sum_ages` returns the plain sum.
pub proof fn wrapped_total_is_total(records: Seq<FlatRecordView>)
    requires
        i32::MIN <= total_age(records) <= i32::MAX,
    ensures
        wrap_i32(total_age(records)) == total_age(records),
{
}

/// A transformation keeps the number of titles, records and flags, and
/// leaves one code fewer.
pub proof fn transformation_lengths(c: CollectionRecordView, policy: RecordPolicy)
    requires
        c.can_transform(),
    ensures
        c.transformed(policy).titles.len() == c.titles.len(),
        c.transformed(policy).codes.len() == c.codes.len() - 1,
        c.transformed(policy).records.len() == c.records.len(),
        c.transformed(policy).flags == c.flags,
{
}

/// Element by element: title `i` of the result is title `len - 1 - i` of the
/// input, code `i` is code `i + 1`, and record `i` is the rewritten record
/// `i`.
pub proof fn transformation_elements(c: CollectionRecordView, policy: RecordPolicy, i: int)
    requires
        c.can_transform(),
    ensures
        0 <= i < c.titles.len() ==> c.transformed(policy).titles[i]
            == c.titles[c.titles.len() - 1 - i],
        0 <= i < c.codes.len() - 1 ==> c.transformed(policy).codes[i] == c.codes[i + 1],
        0 <= i < c.records.len() ==> c.transformed(policy).records[i]
            == policy.applied(c.records[i]),
{
}

/// Transforming twice puts the titles back in the order they started in and
/// drops the first two codes.
pub proof fn transforming_twice(c: CollectionRecordView, first: RecordPolicy, second: RecordPolicy)
    requires
        c.codes.len() >= 2,
    ensures
        c.transformed(first).can_transform(),
        c.transformed(first).transformed(second).titles == c.titles,
        c.transformed(first).transformed(second).codes == c.codes.skip(2),
        c.transformed(first).transformed(second).flags == c.flags,
{
}

/// Under `Normalize` every record of the result is the fixed record, so the
/// ages of the result sum to the number of records.
pub proof fn normalized_records_sum_to_their_count(records: Seq<FlatRecordView>)
    ensures
        total_age(records.map_values(|r: FlatRecordView| RecordPolicy::Normalize.applied(r)))
            == records.len(),
    decreases records.len(),
{
    let out: Seq<FlatRecordView> = records.map_values(
        |r: FlatRecordView| RecordPolicy::Normalize.applied(r),
    );
    if records.len() > 0 {
        assert(out.drop_last() =~= records.drop_last().map_values(
            |r: FlatRecordView| RecordPolicy::Normalize.applied(r),
        ));
        normalized_records_sum_to_their_count(records.drop_last());
    }
}

/// Under `AgeByTen` the ages of the result sum to the old sum plus ten for
/// each record, as long as no single age wraps.
pub proof fn aged_records_sum(records: Seq<FlatRecordView>)
    requires
        forall|i: int|
            0 <= i < records.len() ==> (#[trigger] records[i]).in_range()
                && records[i].age + 10 <= i32::MAX,
    ensures
        total_age(records.map_values(|r: FlatRecordView| RecordPolicy::AgeByTen.applied(r)))
            == total_age(records) + 10 * records.len(),
    decreases records.len(),
{
    let out: Seq<FlatRecordView> = records.map_values(
        |r: FlatRecordView| RecordPolicy::AgeByTen.applied(r),
    );
    if records.len() > 0 {
        assert(out.drop_last() =~= records.drop_last().map_values(
            |r: FlatRecordView| RecordPolicy::AgeByTen.applied(r),
        ));
        aged_records_sum(records.drop_last());
    }
}

} // verus!
