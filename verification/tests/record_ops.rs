use records::record::{
    age_by_ten, bump_deep_id, construct_flat, extract_age, extract_age_through_one_level,
    extract_age_through_two_levels, wrap_one_level, wrap_two_levels, DeepNestedRecord, FlatRecord,
    NestedRecord, AGE_STEP, ID_STEP, ONE_LEVEL_ID, TWO_LEVEL_ID,
};
use records::wrapping::wrapping_sum;

fn flat(name: &str, age: i32) -> FlatRecord {
    FlatRecord { name: name.to_string(), age }
}

#[test]
fn extract_age_returns_the_age() {
    assert_eq!(extract_age(flat("Alice", 30)), 30);
    assert_eq!(extract_age(flat("", 0)), 0);
    assert_eq!(extract_age(flat("x", -7)), -7);
    assert_eq!(extract_age(flat("max", i32::MAX)), i32::MAX);
    assert_eq!(extract_age(flat("min", i32::MIN)), i32::MIN);
}

#[test]
fn extract_age_through_one_level_reads_the_payload() {
    let n = NestedRecord { id: 77, payload: flat("Carol", 41) };
    assert_eq!(extract_age_through_one_level(n), 41);
}

#[test]
fn extract_age_through_two_levels_reads_the_inner_payload() {
    let d = DeepNestedRecord { id: 5, payload: NestedRecord { id: 6, payload: flat("Dan", -3) } };
    assert_eq!(extract_age_through_two_levels(d), -3);
}

#[test]
fn construct_flat_builds_exactly_the_given_fields() {
    assert_eq!(
        construct_flat("Alice".to_string(), 30),
        FlatRecord { name: "Alice".to_string(), age: 30 }
    );
}

#[test]
fn construct_flat_accepts_empty_name_and_any_integer() {
    assert_eq!(construct_flat(String::new(), 0), FlatRecord { name: String::new(), age: 0 });
    assert_eq!(construct_flat(String::new(), -1), FlatRecord { name: String::new(), age: -1 });
    assert_eq!(
        construct_flat("z".to_string(), i32::MIN),
        FlatRecord { name: "z".to_string(), age: i32::MIN }
    );
}

#[test]
fn construct_then_extract_round_trip() {
    for age in [i32::MIN, -5, 0, 1, 30, i32::MAX] {
        assert_eq!(extract_age(construct_flat("n".to_string(), age)), age);
    }
}

#[test]
fn alice_is_constructed_and_aged() {
    let alice = construct_flat("Alice".to_string(), 30);
    assert_eq!(alice, FlatRecord { name: "Alice".to_string(), age: 30 });
    assert_eq!(age_by_ten(alice), FlatRecord { name: "Alice".to_string(), age: 40 });
}

#[test]
fn age_by_ten_keeps_the_name_and_adds_ten() {
    let out = age_by_ten(flat("Erin", 0));
    assert_eq!(out.name, "Erin");
    assert_eq!(out.age, 10);
    assert_eq!(AGE_STEP, 10);
}

#[test]
fn age_by_ten_handles_negative_ages() {
    assert_eq!(age_by_ten(flat("n", -5)).age, 5);
    assert_eq!(age_by_ten(flat("n", -10)).age, 0);
    assert_eq!(age_by_ten(flat("n", -11)).age, -1);
    assert_eq!(age_by_ten(flat("n", i32::MIN)).age, i32::MIN + 10);
}

#[test]
fn age_by_ten_keeps_an_empty_name() {
    assert_eq!(age_by_ten(flat("", 1)), flat("", 11));
}

#[test]
fn age_by_ten_wraps_around_at_the_top() {
    assert_eq!(age_by_ten(flat("old", i32::MAX - 10)).age, i32::MAX);
    assert_eq!(age_by_ten(flat("old", i32::MAX - 9)).age, i32::MIN);
    assert_eq!(age_by_ten(flat("old", i32::MAX)).age, i32::MIN + 9);
}

#[test]
fn age_by_ten_does_not_touch_a_copy_of_its_input() {
    let input = flat("Frank", 20);
    let kept = input.clone();
    let aged = age_by_ten(input);
    assert_eq!(kept, flat("Frank", 20));
    assert_eq!(aged, flat("Frank", 30));
}

#[test]
fn wrap_one_level_uses_the_fixed_id_and_ages_the_payload() {
    let out = wrap_one_level(flat("Gina", 9));
    assert_eq!(out, NestedRecord { id: 1, payload: flat("Gina", 19) });
    assert_eq!(ONE_LEVEL_ID, 1);
}

#[test]
fn wrap_one_level_id_does_not_depend_on_the_record() {
    assert_eq!(wrap_one_level(flat("", 0)).id, 1);
    assert_eq!(wrap_one_level(flat("a", -100)).id, 1);
    assert_eq!(wrap_one_level(flat("b", i32::MAX)).id, 1);
}

#[test]
fn bob_is_wrapped_two_levels_deep() {
    let out = wrap_two_levels(construct_flat("Bob".to_string(), 5));
    assert_eq!(
        out,
        DeepNestedRecord { id: 2, payload: NestedRecord { id: 1, payload: flat("Bob", 15) } }
    );
}

#[test]
fn wrap_two_levels_id_does_not_depend_on_the_record() {
    assert_eq!(wrap_two_levels(flat("", 0)).id, 2);
    assert_eq!(wrap_two_levels(flat("a", -100)).id, 2);
    assert_eq!(TWO_LEVEL_ID, 2);
}

#[test]
fn wrap_two_levels_holds_the_one_level_wrapping() {
    let two = wrap_two_levels(flat("Hal", 50));
    let one = wrap_one_level(flat("Hal", 50));
    assert_eq!(two.payload, one);
    assert_eq!(extract_age_through_two_levels(two), 60);
    assert_eq!(extract_age_through_one_level(one), 60);
}

#[test]
fn bump_deep_id_adds_two_and_keeps_the_payload() {
    let payload = NestedRecord { id: 11, payload: flat("Ivy", 33) };
    let out = bump_deep_id(DeepNestedRecord { id: 40, payload: payload.clone() });
    assert_eq!(out.id, 42);
    assert_eq!(out.payload, payload);
    assert_eq!(ID_STEP, 2);
}

#[test]
fn bump_deep_id_handles_negative_and_zero_ids() {
    let payload = NestedRecord { id: 0, payload: flat("", 0) };
    assert_eq!(bump_deep_id(DeepNestedRecord { id: -2, payload: payload.clone() }).id, 0);
    assert_eq!(bump_deep_id(DeepNestedRecord { id: -1, payload: payload.clone() }).id, 1);
    assert_eq!(bump_deep_id(DeepNestedRecord { id: 0, payload }).id, 2);
}

#[test]
fn bump_deep_id_wraps_around_at_the_top() {
    let payload = NestedRecord { id: 1, payload: flat("p", 1) };
    let out = bump_deep_id(DeepNestedRecord { id: i32::MAX - 1, payload: payload.clone() });
    assert_eq!(out.id, i32::MIN);
    assert_eq!(out.payload, payload);
    assert_eq!(bump_deep_id(DeepNestedRecord { id: i32::MAX, payload }).id, i32::MIN + 1);
}

#[test]
fn bump_deep_id_of_a_fresh_wrapping_gives_four() {
    let out = bump_deep_id(wrap_two_levels(flat("Jo", 1)));
    assert_eq!(
        out,
        DeepNestedRecord { id: 4, payload: NestedRecord { id: 1, payload: flat("Jo", 11) } }
    );
}

#[test]
fn clones_are_equal_to_their_sources() {
    let r = flat("Kim", 8);
    assert_eq!(r.clone(), r);
    let n = NestedRecord { id: 3, payload: r.clone() };
    assert_eq!(n.clone(), n);
    let d = DeepNestedRecord { id: 4, payload: n.clone() };
    assert_eq!(d.clone(), d);
}

#[test]
fn wrapping_sum_adds_with_wraparound() {
    assert_eq!(wrapping_sum(1, 2), 3);
    assert_eq!(wrapping_sum(-5, 10), 5);
    assert_eq!(wrapping_sum(i32::MAX, 1), i32::MIN);
    assert_eq!(wrapping_sum(i32::MIN, -1), i32::MAX);
    assert_eq!(wrapping_sum(i32::MIN, i32::MIN), 0);
    assert_eq!(wrapping_sum(i32::MAX, i32::MAX), -2);
}
