use option_trait::maybe_cell::EmptyCell;
use option_trait::maybe_cell::MaybeCell;
use option_trait::opt_cell::OptCell;
use option_trait::opt_cell;
use option_trait::maybe_cell;

#[test]
fn maybe_cell_it_works() {
    let maybe = MaybeCell::some(777);
    let empty = EmptyCell::none_like(&maybe);

    println!("{:?}", maybe);
    println!("{:?}", empty);
}

#[test]
fn opt_cell_it_works() {
    let maybe = OptCell::some(777);
    let empty = OptCell::none_like(&maybe);

    println!("{:?}", maybe);
    println!("{:?}", empty);
}

#[test]
fn present_cells_report_and_unwrap_their_payload() {
    let m = MaybeCell::some(41);
    assert!(m.is_some());
    assert!(!m.is_none());
    assert_eq!(m.unwrap(), 41);


    let o = OptCell::some(41);
    assert!(o.is_some());
    assert!(!o.is_none());
    assert_eq!(o.unwrap(), 41);

    let mapped = OptCell::some(41).map(|x| x + 1);
    assert_eq!(mapped.unwrap(), 42);

    let mapped = MaybeCell::some(41).map(|x| x + 1);
    assert_eq!(mapped.unwrap(), 42);
}

#[test]
fn absent_cells_report_absence_and_fall_back() {
    let m = EmptyCell::<i32>::none();
    assert!(m.is_none());
    assert!(!m.is_some());
    assert_eq!(m.unwrap_or(5), 5);
    let mapped = EmptyCell::<i32>::none().map(|x: i32| x + 1);
    assert!(mapped.is_none());

    let o = OptCell::<i32, false>::none();
    assert!(o.is_none());
    assert_eq!(o.unwrap_or(5), 5);
    let mapped = OptCell::<i32, false>::none().map(|x: i32| x + 1);
    assert!(mapped.is_none());
}

#[test]
fn constructors_for_unusual_shapes() {
    let o = OptCell::<i32, false>::none_for(&3);
    assert!(o.is_none());

    let full = OptCell::<&str, true>::from_fn(|| ":^)");
    assert!(full.is_some());
    assert_eq!(full.unwrap(), ":^)");

    let empty = OptCell::<&str, false>::from_fn(|| -> &str { panic!("must not run") });
    assert!(empty.is_none());

    let m = MaybeCell::<u8, true>::from_fn(|| 9);
    assert_eq!(m.into_value(), 9);
}

#[test]
fn option_round_trip_keeps_presence_and_value() {
    let o = OptCell::some(777);
    let opt = o.option();
    assert_eq!(opt, Some(777));
    let back = OptCell::some(opt.unwrap());
    assert_eq!(back.option(), Some(777));

    let e = OptCell::<i32, false>::none();
    let opt = e.option();
    assert_eq!(opt, None);
    let back = OptCell::<i32, false>::none();
    assert_eq!(back.option(), None);

    let m = MaybeCell::some(8);
    assert_eq!(m.option(), Some(8));
    let em = EmptyCell::<i32>::none();
    assert_eq!(em.option(), None);

    let rt = opt_cell::round_trip_present(OptCell::some(6));
    assert_eq!(rt.option(), Some(6));
    let rt = opt_cell::round_trip_absent(OptCell::<i32, false>::none());
    assert_eq!(rt.option(), None);
    let rt = maybe_cell::round_trip_present(MaybeCell::some(6));
    assert_eq!(rt.option(), Some(6));
    let rt = maybe_cell::round_trip_absent(MaybeCell::<i32, false>::none());
    assert_eq!(rt.option(), None);
}

#[test]
fn unwrap_family_on_cells() {
    let o = OptCell::some(10);
    assert_eq!(o.as_value(), &10);
    assert_eq!(*o.unwrap_ref(), 10);
    assert_eq!(o.expect("present"), 10);

    let mut o = OptCell::some(10);
    *o.as_value_mut() = 11;
    assert_eq!(o.unwrap(), 11);

    let mut o = OptCell::some(1);
    *o.unwrap_mut() = 2;
    assert_eq!(*o.unwrap_ref(), 2);

    let e = OptCell::<i32, false>::none();
    assert_eq!(e.unwrap_ref_or(&9), &9);
    assert_eq!(e.unwrap_ref_or_else(|| &3), &3);
    assert_eq!(e.unwrap_or(7), 7);
    assert_eq!(OptCell::<i32, false>::none().unwrap_or_else(|| 8), 8);
    assert_eq!(OptCell::<i32, false>::none().unwrap_or_default(), 0);

    let mut e = OptCell::<i32, false>::none();
    let mut fallback = 4;
    assert_eq!(*e.unwrap_mut_or(&mut fallback), 4);

    let o = OptCell::some(5);
    assert_eq!(o.unwrap_ref_or(&9), &5);
    assert_eq!(o.unwrap_or(7), 5);
}

#[test]
fn cells_get_and_borrow() {
    let o = OptCell::some(3);
    assert_eq!(o.get(), Some(&3));
    let r = o.as_ref();
    assert_eq!(r.unwrap(), &3);

    let mut o = OptCell::some(3);
    if let Some(p) = o.get_mut() {
        *p = 4;
    }
    assert_eq!(o.get(), Some(&4));

    let mut o = OptCell::some(3);
    let borrowed = o.as_mut();
    *borrowed.unwrap() = 5;
    assert_eq!(o.get(), Some(&5));

    let mut m = MaybeCell::some(3);
    let borrowed = m.as_mut();
    *borrowed.unwrap() = 5;
    assert_eq!(m.get(), Some(&5));

    let e = OptCell::<i32, false>::none();
    assert_eq!(e.get(), None);
    assert!(e.as_ref().is_none());
}

#[test]
fn cells_to_results() {
    let o = OptCell::some("All right");
    assert_eq!(o.ok_or("Wrong"), Ok("All right"));
    let e = OptCell::<&str, false>::none_like(&OptCell::some("All right"));
    assert_eq!(e.ok_or("Wrong"), Err("Wrong"));
    let e = OptCell::<&str, false>::none();
    assert_eq!(e.ok_or_else(|| "Wrong"), Err("Wrong"));

    let m = MaybeCell::some("All right");
    assert_eq!(m.ok_or("Wrong"), Ok("All right"));
}

#[test]
fn map_variants_on_cells() {
    let o = OptCell::some(666);
    assert_eq!(o.map_or(999, |x| x + 111), 777);
    let e = OptCell::<i32, false>::none();
    assert_eq!(e.map_or(999, |x| x + 111), 999);

    let o = OptCell::some(666);
    assert_eq!(o.map_or_else(|| 999, |x| x + 111), 777);
    let e = MaybeCell::<i32, false>::none();
    assert_eq!(e.map_or_else(|| 999, |x| x + 111), 999);
}

#[test]
fn copied_and_cloned_cells() {
    let value = 777;
    let o: OptCell<&i32, true> = OptCell::some(&value);
    let copy = o.copied();
    assert!(copy.is_some());
    assert_eq!(copy.unwrap(), 777);

    let text = String::from("Sample text");
    let m: MaybeCell<&String, true> = MaybeCell::some(&text);
    let clone = m.cloned();
    assert_eq!(clone.unwrap(), String::from("Sample text"));

    let e: OptCell<&i32, false> = OptCell::none();
    assert!(e.copied().is_none());
    assert!(e.cloned().is_none());
}

#[test]
fn slices_view_zero_or_one_element() {
    let o = OptCell::some(777);
    let slice = o.as_slice();
    assert_eq!(slice.len(), 1);
    assert_eq!(slice, &[777]);

    let e = OptCell::<i32, false>::none();
    assert_eq!(e.as_slice().len(), 0);
}

#[test]
fn reference_iteration_yields_payload_exactly_once() {
    let o = OptCell::some(777);
    let mut seen = 0;
    for &v in o.as_slice() {
        assert_eq!(v, 777);
        seen += 1;
    }
    assert_eq!(seen, 1);

    let e = OptCell::<i32, false>::none();
    let mut seen = 0;
    for _ in e.as_slice() {
        seen += 1;
    }
    assert_eq!(seen, 0);

    let first: Vec<&i32> = o.as_slice().iter().collect();
    let second: Vec<&i32> = o.as_slice().iter().collect();
    assert_eq!(first, second);
    assert_eq!(first, vec![&777]);
}

#[test]
fn default_and_from_conversions() {
    let d: OptCell<i32, false> = Default::default();
    assert!(d.is_none());
    let d: MaybeCell<i32, false> = Default::default();
    assert!(d.is_none());

    let c: OptCell<i32, true> = OptCell::from(5);
    assert_eq!(c.unwrap(), 5);
    let o: Option<i32> = Option::from(OptCell::some(5));
    assert_eq!(o, Some(5));
    let o: Option<i32> = Option::from(OptCell::<i32, false>::none());
    assert_eq!(o, None);
    let m: MaybeCell<i32, true> = MaybeCell::from(5);
    assert_eq!(m.into_value(), 5);
}
