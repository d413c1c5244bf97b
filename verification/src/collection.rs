//! The collection record and the whole-collection operations: reversal,
//! dropping the head, element-wise rewriting and summation.

use vstd::prelude::*;
use crate::record::{age_by_ten, FlatRecord, FlatRecordView};
use crate::wrapping::{wrap_i32, wrap_i32_absorbs, wrapping_sum};

verus! {

/// Four independently owned sequences. Each may be empty; order matters.
#[derive(Debug, PartialEq, Eq)]
pub struct CollectionRecord {
    pub titles: Vec<String>,
    pub codes: Vec<i32>,
    pub records: Vec<FlatRecord>,
    pub flags: Vec<bool>,
}

/// Mathematical model of a `CollectionRecord`.
pub struct CollectionRecordView {
    pub titles: Seq<Seq<char>>,
    pub codes: Seq<int>,
    pub records: Seq<FlatRecordView>,
    pub flags: Seq<bool>,
}

/// The characters of each title, in order.
pub open spec fn title_views(titles: Seq<String>) -> Seq<Seq<char>> {
    titles.map_values(|t: String| t@)
}

/// Each code as a mathematical integer, in order.
pub open spec fn code_views(codes: Seq<i32>) -> Seq<int> {
    codes.map_values(|c: i32| c as int)
}

/// The model of each record, in order.
pub open spec fn record_views(records: Seq<FlatRecord>) -> Seq<FlatRecordView> {
    records.map_values(|r: FlatRecord| r@)
}

impl View for CollectionRecord {
    type V = CollectionRecordView;

    open spec fn view(&self) -> CollectionRecordView {
        CollectionRecordView {
            titles: title_views(self.titles@),
            codes: code_views(self.codes@),
            records: record_views(self.records@),
            flags: self.flags@,
        }
    }
}

/// What `sample_collection` returns: two titles, three codes, two records
/// and three flags.
pub open spec fn sample_collection_view() -> CollectionRecordView {
    CollectionRecordView {
        titles: seq!["star wars 1"@, "star wars 2"@],
        codes: seq![99int, 98int, 97int],
        records: seq![FlatRecordView::new("name1"@, 1), FlatRecordView::new("name2"@, 2)],
        flags: seq![true, false, true],
    }
}

/// The fixed reference collection. Its `records` is populated: it holds the
/// two records `name1` (age 1) and `name2` (age 2).
pub fn sample_collection() -> (out: CollectionRecord)
    ensures
        out@ == sample_collection_view(),
        out.titles@.len() == 2,
        out.titles@[0]@ == "star wars 1"@,
        out.titles@[1]@ == "star wars 2"@,
        out.codes@ == seq![99i32, 98i32, 97i32],
        out.records@.len() == 2,
        out.records@[0]@ == FlatRecordView::new("name1"@, 1),
        out.records@[1]@ == FlatRecordView::new("name2"@, 2),
        out.flags@ == seq![true, false, true],
{
    let out = CollectionRecord {
        titles: vec!["star wars 1".to_string(), "star wars 2".to_string()],
        codes: vec![99, 98, 97],
        records: vec![
            FlatRecord { name: "name1".to_string(), age: 1 },
            FlatRecord { name: "name2".to_string(), age: 2 },
        ],
        flags: vec![true, false, true],
    };
    proof {
        assert(title_views(out.titles@) =~= sample_collection_view().titles);
        assert(code_views(out.codes@) =~= sample_collection_view().codes);
        assert(record_views(out.records@) =~= sample_collection_view().records);
    }
    out
}

impl Clone for CollectionRecord {
    /// Duplicates all four sequences, element by element.
    fn clone(&self) -> (copy: Self)
        ensures
            copy.titles@ == self.titles@,
            copy.codes@ == self.codes@,
            copy.records@ == self.records@,
            copy.flags@ == self.flags@,
            copy@ == self@,
    {
        CollectionRecord {
            titles: self.titles.clone(),
            codes: self.codes.clone(),
            records: self.records.clone(),
            flags: self.flags.clone(),
        }
    }
}

/// How `transform_collection_with` rewrites each element of `records`.
#[derive(Clone, Copy, Debug, PartialEq, Eq)]
pub enum RecordPolicy {
    /// Keep each name and raise each age by ten.
    AgeByTen,
    /// Replace every element by the same fixed record.
    Normalize,
}

/// The record that `RecordPolicy::Normalize` puts in place of every element:
/// the name `test` with age 1.
pub open spec fn normalized_record() -> FlatRecordView {
    FlatRecordView::new("test"@, 1)
}

impl RecordPolicy {
    /// What the policy makes of one record.
    pub open spec fn applied(self, r: FlatRecordView) -> FlatRecordView {
        match self {
            RecordPolicy::AgeByTen => r.aged_by_ten(),
            RecordPolicy::Normalize => normalized_record(),
        }
    }

    /// Rewrites one record; the input is left as it was.
    pub fn apply(self, r: &FlatRecord) -> (out: FlatRecord)
        ensures
            out@ == self.applied(r@),
    {
        match self {
            RecordPolicy::AgeByTen => age_by_ten(r.clone()),
            RecordPolicy::Normalize => FlatRecord { name: "test".to_string(), age: 1 },
        }
    }
}

/// The same items, last to first.
pub fn reverse_owned<T>(items: Vec<T>) -> (out: Vec<T>)
    ensures
        out@ == items@.reverse(),
{
    let ghost all: Seq<T> = items@;
    let mut rest: Vec<T> = items;
    let mut out: Vec<T> = Vec::new();
    loop
        invariant
            rest@ == all.take(rest@.len() as int),
            rest@.len() + out@.len() == all.len(),
            forall|i: int| 0 <= i < out@.len() ==> out@[i] == all[all.len() - 1 - i],
        ensures
            out@.len() == all.len(),
            forall|i: int| 0 <= i < out@.len() ==> out@[i] == all[all.len() - 1 - i],
        decreases rest@.len(),
    {
        match rest.pop() {
            Some(item) => {
                out.push(item);
            },
            None => {
                break ;
            },
        }
    }
    out
}

/// The items after the first one, in order.
pub fn drop_first<T>(items: Vec<T>) -> (out: Vec<T>)
    requires
        items@.len() >= 1,
    ensures
        out@ == items@.skip(1),
{
    let mut out: Vec<T> = items;
    let _ = out.remove(0);
    out
}

/// Rewrites every record under the given policy, keeping the order.
pub fn transform_records(records: &Vec<FlatRecord>, policy: RecordPolicy) -> (out: Vec<FlatRecord>)
    ensures
        out@.len() == records@.len(),
        forall|i: int|
            0 <= i < records@.len() ==> (#[trigger] out@[i])@ == policy.applied(records@[i]@),
        record_views(out@) == record_views(records@).map_values(
            |r: FlatRecordView| policy.applied(r),
        ),
{
    let mut out: Vec<FlatRecord> = Vec::new();
    let mut i: usize = 0;
    while i < records.len()
        invariant
            i <= records@.len(),
            out@.len() == i,
            forall|k: int| 0 <= k < i ==> (#[trigger] out@[k])@ == policy.applied(records@[k]@),
        decreases records@.len() - i,
    {
        out.push(policy.apply(&records[i]));
        i = i + 1;
    }
    out
}

impl CollectionRecordView {
    /// Whether `transformed` is defined: there is a first code to drop.
    pub open spec fn can_transform(self) -> bool {
        self.codes.len() >= 1
    }

    /// Titles reversed, codes without their first element, every record
    /// rewritten under `policy`, flags as they were.
    pub open spec fn transformed(self, policy: RecordPolicy) -> CollectionRecordView
        recommends
            self.can_transform(),
    {
        CollectionRecordView {
            titles: self.titles.reverse(),
            codes: self.codes.skip(1),
            records: self.records.map_values(|r: FlatRecordView| policy.applied(r)),
            flags: self.flags,
        }
    }
}

/// Why a collection could not be transformed.
#[derive(Clone, Copy, Debug, PartialEq, Eq)]
pub enum TransformError {
    /// `codes` holds no element, so there is no first element to drop.
    EmptyCodes,
}

impl TransformError {
    /// The text of `message`.
    pub open spec fn message_text(self) -> Seq<char> {
        match self {
            TransformError::EmptyCodes => {
                "transform_collection: range start 1 is out of bounds for `codes` of length 0"@
            },
        }
    }

    /// Names the operation that failed and the bounds violation behind it.
    pub fn message(&self) -> (text: String)
        ensures
            text@ == self.message_text(),
    {
        match self {
            TransformError::EmptyCodes => {
                "transform_collection: range start 1 is out of bounds for `codes` of length 0".to_string()
            },
        }
    }
}

/// Transforms a collection whose `codes` is not empty: titles come back
/// reversed, codes without their first element, every record rewritten under
/// `policy`, and flags unchanged.
pub fn transform_collection_with(
    c: CollectionRecord,
    policy: RecordPolicy,
) -> (out: CollectionRecord)
    requires
        c@.can_transform(),
    ensures
        out@ == c@.transformed(policy),
        out.titles@ == c.titles@.reverse(),
        out.codes@ == c.codes@.skip(1),
        out.records@.len() == c.records@.len(),
        forall|i: int|
            0 <= i < c.records@.len() ==> (#[trigger] out.records@[i])@
                == policy.applied(c.records@[i]@),
        out.flags == c.flags,
{
    let CollectionRecord { titles, codes, records, flags } = c;
    let records = transform_records(&records, policy);
    let titles = reverse_owned(titles);
    let codes = drop_first(codes);
    proof {
        assert(title_views(titles@) =~= title_views(c.titles@).reverse());
        assert(code_views(codes@) =~= code_views(c.codes@).skip(1));
    }
    CollectionRecord { titles, codes, records, flags }
}

/// Transforms a collection whose `codes` is not empty, under the policy that
/// this library settles on: `RecordPolicy::Normalize`, which replaces every
/// record by the fixed record named `test` with age 1.
pub fn transform_collection(c: CollectionRecord) -> (out: CollectionRecord)
    requires
        c@.can_transform(),
    ensures
        out@ == c@.transformed(RecordPolicy::Normalize),
        out.titles@ == c.titles@.reverse(),
        out.codes@ == c.codes@.skip(1),
        out.records@.len() == c.records@.len(),
        forall|i: int|
            0 <= i < c.records@.len() ==> (#[trigger] out.records@[i])@ == normalized_record(),
        out.flags == c.flags,
{
    transform_collection_with(c, RecordPolicy::Normalize)
}

/// Transforms any collection: fails with `EmptyCodes` exactly when `codes` is
/// empty, and otherwise returns what `transform_collection_with` returns.
pub fn try_transform_collection(
    c: CollectionRecord,
    policy: RecordPolicy,
) -> (result: Result<CollectionRecord, TransformError>)
    ensures
        c@.can_transform() ==> result is Ok,
        !c@.can_transform() ==> result == Err::<CollectionRecord, TransformError>(
            TransformError::EmptyCodes,
        ),
        result matches Ok(out) ==> {
            &&& out@ == c@.transformed(policy)
            &&& out.titles@ == c.titles@.reverse()
            &&& out.codes@ == c.codes@.skip(1)
            &&& out.records@.len() == c.records@.len()
            &&& forall|i: int|
                0 <= i < c.records@.len() ==> (#[trigger] out.records@[i])@
                    == policy.applied(c.records@[i]@)
            &&& out.flags == c.flags
        },
{
    if c.codes.len() == 0 {
        Err(TransformError::EmptyCodes)
    } else {
        Ok(transform_collection_with(c, policy))
    }
}

/// The sum of all ages, as a mathematical integer.
pub open spec fn total_age(records: Seq<FlatRecordView>) -> int
    decreases records.len(),
{
    if records.len() == 0 {
        0
    } else {
        total_age(records.drop_last()) + records.last().age
    }
}

/// Adds up the ages of all records with signed 32-bit wraparound.
///
/// The result is the mathematical sum wrapped once, whatever the running sum
/// did on the way; where the mathematical sum fits, the result is exactly it.
pub fn sum_ages(records: Vec<FlatRecord>) -> (sum: i32)
    ensures
        sum == wrap_i32(total_age(record_views(records@))),
        i32::MIN <= total_age(record_views(records@)) <= i32::MAX
            ==> sum == total_age(record_views(records@)),
        records@.len() == 0 ==> sum == 0,
{
    let ghost views: Seq<FlatRecordView> = record_views(records@);
    let mut sum: i32 = 0;
    let mut i: usize = 0;
    while i < records.len()
        invariant
            i <= records@.len(),
            views == record_views(records@),
            sum == wrap_i32(total_age(views.take(i as int))),
        decreases records@.len() - i,
    {
        proof {
            let upto: Seq<FlatRecordView> = views.take(i + 1);
            assert(upto.drop_last() =~= views.take(i as int));
            wrap_i32_absorbs(total_age(views.take(i as int)), records@[i as int].age as int);
        }
        sum = wrapping_sum(sum, records[i].age);
        i = i + 1;
    }
    assert(views.take(i as int) =~= views);
    sum
}

} // verus!
