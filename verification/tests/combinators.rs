use option_trait::maybe::Maybe;
use option_trait::opt_cell::OptCell;
use option_trait::ops::and::MaybeAnd;
use option_trait::ops::and_then::MaybeAndThen;
use option_trait::ops::filter::MaybeFilter;
use option_trait::ops::or::MaybeOr;
use option_trait::ops::xor::MaybeXor;
use option_trait::option_kind::OptionKind;

#[test]
fn and_truth_table_right_operand_wins() {
    let a = OptCell::<&str, false>::none();
    let b = OptCell::<&str, false>::none();
    assert_eq!(a.and(b), None);

    let a = OptCell::some("First");
    let b = OptCell::<&str, false>::none();
    assert_eq!(a.and(b), None);

    let a = OptCell::<&str, false>::none();
    let b = OptCell::some("Second");
    assert_eq!(a.and(b), None);

    let a = OptCell::some("First");
    let b = OptCell::some("Second");
    assert_eq!(a.and(b), Some("Second"));
}

#[test]
fn or_truth_table_left_operand_wins() {
    let a = OptCell::<&str, false>::none();
    let b = OptCell::<&str, false>::none();
    assert_eq!(a.or(b), None);

    let a = OptCell::some("First");
    let b = OptCell::<&str, false>::none();
    assert_eq!(a.or(b), Some("First"));

    let a = OptCell::<&str, false>::none();
    let b = OptCell::some("Second");
    assert_eq!(a.or(b), Some("Second"));

    let a = OptCell::some("First");
    let b = OptCell::some("Second");
    assert_eq!(a.or(b), Some("First"));
}

#[test]
fn xor_truth_table_exactly_one_wins() {
    let a = OptCell::<&str, false>::none();
    let b = OptCell::<&str, false>::none();
    assert_eq!(a.xor(b), None);

    let a = OptCell::some("First");
    let b = OptCell::<&str, false>::none();
    assert_eq!(a.xor(b), Some("First"));

    let a = OptCell::<&str, false>::none();
    let b = OptCell::some("Second");
    assert_eq!(a.xor(b), Some("Second"));

    let a = OptCell::some("First");
    let b = OptCell::some("Second");
    assert_eq!(a.xor(b), None);
}

#[test]
fn combinators_through_the_pairwise_traits() {
    let a: Option<i32> = Some(1);
    assert_eq!(MaybeAnd::and(a, 2), Some(2));
    assert_eq!(MaybeOr::or(a, 2), Some(1));
    assert_eq!(MaybeXor::<i32, Option<i32>>::xor(a, Some(2)), None);
    assert_eq!(MaybeXor::<i32, Option<i32>>::xor(a, None), Some(1));

    let n: Option<i32> = None;
    assert_eq!(MaybeAnd::and(n, 2), None);
    assert_eq!(MaybeOr::or(n, 2), Some(2));
    assert_eq!(MaybeOr::or_else(n, || 3), Some(3));
    assert_eq!(MaybeOr::<i32, i32>::or_else(Some(1), || 3), Some(1));
}

#[test]
fn and_then_flattens() {
    let maybe1 = OptCell::some("abcdefg");
    let maybe2 = OptCell::some("abcdef");

    let result1 = maybe1.and_then(|value: &str| {
        if value.len() > 6 { None } else { Some(value) }
    });
    let result2 = maybe2.and_then(|value: &str| {
        if value.len() > 6 { None } else { Some(value) }
    });

    assert_eq!(result1, None);
    assert_eq!(result2, Some("abcdef"));

    let absent = OptCell::<&str, false>::none();
    assert_eq!(absent.and_then(|value: &str| Some(value)), None);

    let through_trait = MaybeAndThen::<i32, i32>::and_then(Some(2), |x| Some(x * 3));
    assert_eq!(through_trait, Some(6));
}

#[test]
fn filter_keeps_only_accepted_payloads() {
    let maybe1 = OptCell::some("abcdefg");
    let maybe2 = OptCell::some("abcdef");

    let result1 = maybe1.filter(|value: &&str| value.len() <= 6);
    let result2 = maybe2.filter(|value: &&str| value.len() <= 6);

    assert_eq!(result1, None);
    assert_eq!(result2, Some("abcdef"));

    let absent = OptCell::<&str, false>::none();
    assert_eq!(absent.filter(|value: &&str| value.len() <= 6), None);

    let through_trait = MaybeFilter::filter(Some(4), |x: &i32| *x % 2 == 0);
    assert_eq!(through_trait, Some(4));
}

#[test]
fn or_else_runs_only_when_empty() {
    let a = OptCell::some("First");
    assert_eq!(a.or_else(|| -> Option<&str> { panic!("must not run") }), Some("First"));

    let e = OptCell::<&str, false>::none();
    assert_eq!(e.or_else(|| Some("Second")), Some("Second"));
}

#[test]
fn presence_kind_boolean_algebra() {
    let s = OptionKind::Present;
    let n = OptionKind::Absent;

    assert_eq!(s.and(s), OptionKind::Present);
    assert_eq!(s.and(n), OptionKind::Absent);
    assert_eq!(n.and(s), OptionKind::Absent);
    assert_eq!(n.and(n), OptionKind::Absent);

    assert_eq!(s.or(n), OptionKind::Present);
    assert_eq!(n.or(n), OptionKind::Absent);

    assert_eq!(s.xor(n), OptionKind::Present);
    assert_eq!(s.xor(s), OptionKind::Absent);

    assert_eq!(s.nand(s), OptionKind::Absent);
    assert_eq!(n.nand(n), OptionKind::Present);

    assert_eq!(s.nor(n), OptionKind::Absent);
    assert_eq!(n.nor(n), OptionKind::Present);

    assert_eq!(s.xnor(s), OptionKind::Present);
    assert_eq!(s.xnor(n), OptionKind::Absent);

    assert_eq!(s.negate(), OptionKind::Absent);
    assert_eq!(n.negate(), OptionKind::Present);

    assert_eq!(OptionKind::from(&Some(1)), OptionKind::Present);
    assert_eq!(OptionKind::from(&None::<i32>), OptionKind::Absent);
    assert!(s.is_some());
    assert!(n.is_none());
}

#[test]
fn cell_combinators_mix_carrier_kinds() {
    let a = OptCell::some(1);
    assert_eq!(a.and(Some(2)), Some(2));
    let a = OptCell::some(1);
    assert_eq!(a.or(None::<i32>), Some(1));
    let a = OptCell::<i32, false>::none();
    assert_eq!(a.xor(7), Some(7));

    let v = 5;
    assert_eq!(<i32 as Maybe<i32>>::unwrap(v), 5);
    assert_eq!(MaybeAnd::and(5, 6), Some(6));
    assert_eq!(MaybeOr::or(5, 6), Some(5));
    assert_eq!(MaybeXor::xor(5, 6), None);
}
