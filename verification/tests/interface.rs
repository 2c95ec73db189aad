use option_trait::maybe::Maybe;
use option_trait::option_kind::OptionKind;
use option_trait::option_obj::OptionObj;
use option_trait::optional::Optional;
use option_trait::static_maybe::StaticMaybe;
use option_trait::maybe_cell::MaybeCell;
use option_trait::opt_cell::OptCell;

#[test]
fn options_through_the_maybe_interface() {
    let x: Option<i32> = Some(3);
    assert!(<Option<i32> as Maybe<i32>>::is_some(&x));
    assert!(!<Option<i32> as Maybe<i32>>::is_none(&x));
    assert_eq!(<Option<i32> as Maybe<i32>>::option(x), Some(3));
    assert_eq!(<Option<i32> as Maybe<i32>>::unwrap(x), 3);
    assert_eq!(<Option<i32> as Maybe<i32>>::unwrap_or(x, 0), 3);
    assert_eq!(<Option<i32> as Maybe<i32>>::expect(x, "present"), 3);
    assert_eq!(<Option<i32> as Maybe<i32>>::option_ref(&x), Some(&3));
    assert_eq!(<Option<i32> as Maybe<i32>>::unwrap_ref(&x), &3);
    assert_eq!(<Option<i32> as Maybe<i32>>::map(x, |v| v * 2), Some(6));
    assert_eq!(<Option<i32> as Maybe<i32>>::map_or(x, 0, |v| v * 2), 6);
    assert_eq!(<Option<i32> as Maybe<i32>>::map_or_else(x, || 0, |v| v * 2), 6);
    assert_eq!(<Option<i32> as Maybe<i32>>::ok_or(x, "missing"), Ok(3));
    assert_eq!(<Option<i32> as Maybe<i32>>::ok_or_else(x, || "missing"), Ok(3));

    let n: Option<i32> = None;
    assert!(<Option<i32> as Maybe<i32>>::is_none(&n));
    assert_eq!(<Option<i32> as Maybe<i32>>::unwrap_or(n, 9), 9);
    assert_eq!(<Option<i32> as Maybe<i32>>::unwrap_or_else(n, || 10), 10);
    assert_eq!(<Option<i32> as Maybe<i32>>::unwrap_or_default(n), 0);
    assert_eq!(<Option<i32> as Maybe<i32>>::unwrap_ref_or(&n, &8), &8);
    assert_eq!(<Option<i32> as Maybe<i32>>::unwrap_ref_or_else(&n, || &7), &7);
    assert_eq!(<Option<i32> as Maybe<i32>>::map(n, |v| v * 2), None);
    assert_eq!(<Option<i32> as Maybe<i32>>::ok_or(n, "missing"), Err("missing"));

    let mut m: Option<i32> = Some(1);
    if let Some(p) = <Option<i32> as Maybe<i32>>::option_mut(&mut m) {
        *p = 2;
    }
    assert_eq!(m, Some(2));
    *<Option<i32> as Maybe<i32>>::unwrap_mut(&mut m) = 3;
    assert_eq!(m, Some(3));
}

#[test]
fn bare_values_are_always_present() {
    let v = 5;
    assert!(<i32 as Maybe<i32>>::is_some(&v));
    assert!(!<i32 as Maybe<i32>>::is_none(&v));
    assert_eq!(<i32 as Maybe<i32>>::option(v), Some(5));
    assert_eq!(<i32 as Maybe<i32>>::unwrap(v), 5);
    assert_eq!(<i32 as Maybe<i32>>::unwrap_or(v, 0), 5);
    assert_eq!(<i32 as Maybe<i32>>::map(v, |x| x + 1), Some(6));
    assert_eq!(<i32 as Maybe<i32>>::ok_or(v, "missing"), Ok(5));
    assert_eq!(<i32 as Maybe<i32>>::option_ref(&v), Some(&5));
}

#[test]
fn cells_through_the_maybe_interface() {
    let c = OptCell::some(4);
    assert_eq!(Maybe::option(c), Some(4));
    let c = OptCell::some(4);
    assert_eq!(<OptCell<i32, true> as Maybe<i32>>::unwrap(c), 4);
    let e = MaybeCell::<i32, false>::none();
    assert_eq!(Maybe::unwrap_or(e, 6), 6);
    let e = OptCell::<i32, false>::none();
    assert_eq!(<OptCell<i32, false> as Maybe<i32>>::option(e), None);
}

#[test]
fn optional_insertion_and_removal() {
    let mut option: Option<i32> = None;
    Optional::insert(&mut option, 32);
    assert_eq!(option, Some(32));
    Optional::insert(&mut option, 64);
    assert_eq!(option, Some(64));

    let mut option: Option<i32> = None;
    Optional::get_or_insert(&mut option, 32);
    assert_eq!(option, Some(32));
    Optional::get_or_insert(&mut option, 64);
    assert_eq!(option, Some(32));

    let mut option: Option<i32> = None;
    Optional::get_or_insert_default(&mut option);
    assert_eq!(option, Some(0));

    let mut option: Option<i32> = None;
    Optional::get_or_insert_with(&mut option, || 32);
    assert_eq!(option, Some(32));
    Optional::get_or_insert_with(&mut option, || panic!("must not run"));
    assert_eq!(option, Some(32));

    let mut option = Some(69);
    let taken = Optional::take(&mut option);
    assert_eq!(taken, Some(69));
    assert_eq!(option, None);

    let mut option = Some(69);
    let taken = Optional::take_if(&mut option, |x| *x == 69);
    assert_eq!(taken, Some(69));
    assert_eq!(option, None);

    let mut option = Some(69);
    let kept = Optional::take_if(&mut option, |x| *x == 1);
    assert_eq!(kept, None);
    assert_eq!(option, Some(69));

    let mut option = Some(69);
    let replaced = Optional::replace(&mut option, 420);
    assert_eq!(replaced, Some(69));
    assert_eq!(option, Some(420));

    let made: Option<i32> = Optional::some(777);
    assert_eq!(made, Some(777));
    let empty: Option<i32> = Optional::none();
    assert_eq!(empty, None);
}

#[test]
fn option_objects_classify_their_presence() {
    let x: Option<i32> = Some(1);
    assert!(OptionObj::is_some(&x));
    assert!(!OptionObj::is_none(&x));
    assert_eq!(OptionObj::kind(&x), OptionKind::Present);

    let n: Option<i32> = None;
    assert!(OptionObj::is_none(&n));
    assert_eq!(OptionObj::kind(&n), OptionKind::Absent);
}

#[test]
fn static_shapes_choose_their_functor() {
    assert_eq!(<i32 as StaticMaybe<i32>>::maybe_from_fn(|| 7), 7);
    assert_eq!(<i32 as StaticMaybe<i32>>::into_value(7), 7);
    assert_eq!(<i32 as StaticMaybe<i32>>::as_value(&7), &7);
    let mut held = 7;
    *<i32 as StaticMaybe<i32>>::as_value_mut(&mut held) = 8;
    assert_eq!(held, 8);
    let mut cell = OptCell::<i32, true>::some(7);
    *<OptCell<i32, true> as StaticMaybe<i32>>::as_value_mut(&mut cell) = 8;
    assert_eq!(cell.unwrap(), 8);

    let full = OptCell::<i32, true>::maybe_from_fn(|| 7);
    assert_eq!(full.unwrap(), 7);
    let empty = OptCell::<i32, false>::maybe_from_fn(|| -> i32 { panic!("must not run") });
    assert!(empty.is_none());
    let empty = MaybeCell::<i32, false>::maybe_from_fn(|| -> i32 { panic!("must not run") });
    assert!(empty.is_none());

    assert_eq!(<i32 as StaticMaybe<i32>>::maybe_or_from_fn(|| "ok", || "or"), "ok");
    assert_eq!(
        <OptCell<i32, true> as StaticMaybe<i32>>::maybe_or_from_fn(|| "ok", || "or"),
        "ok"
    );
    assert_eq!(
        <OptCell<i32, false> as StaticMaybe<i32>>::maybe_or_from_fn(|| "ok", || "or"),
        "or"
    );
    assert_eq!(
        <MaybeCell<i32, false> as StaticMaybe<i32>>::maybe_or_from_fn(|| "ok", || "or"),
        "or"
    );
}

#[test]
fn cell_invariant_holds_for_each_flag() {
    let present = OptCell::<i32, true>::some(1);
    assert!(present.is_some());
    assert!(!present.is_none());

    let absent = OptCell::<i32, false>::none();
    assert!(absent.is_none());
    assert!(!absent.is_some());

    let present = MaybeCell::<i32, true>::some(1);
    assert!(present.is_some());

    let absent = MaybeCell::<i32, false>::none();
    assert!(absent.is_none());
}
