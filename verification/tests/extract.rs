use single::Error;
use single::Repeat;
use single::Single;
use std::cell::Cell;

#[test]
#[should_panic(expected = "Called single() on empty iterator")]
fn panic_empty() {
    let v: Vec<i32> = vec![];
    let _: i32 = match v.single() {
        Ok(element) => element,
        Err(e) => panic!("{}", e.description()),
    };
}

#[test]
#[should_panic(expected = "Called single() on multiple-element iterator")]
fn panic_multiple() {
    let r = Repeat { element: 0 };
    let _ = match r.single() {
        Ok(element) => element,
        Err(e) => panic!("{}", e.description()),
    };
}

#[test]
fn empty_yields_no_elements() {
    let v: Vec<i32> = vec![];
    assert_eq!(v.single(), Err(Error::NoElements));
}

#[test]
fn one_element_yields_it() {
    assert_eq!(vec![0].single(), Ok(0));
}

#[test]
fn two_elements_yield_multiple() {
    assert_eq!(vec![0, 1].single(), Err(Error::MultipleElements));
}

#[test]
fn longer_sequence_yields_multiple() {
    assert_eq!(vec![1, 2, 3, 4, 5].single(), Err(Error::MultipleElements));
}

#[test]
fn endless_repetition_yields_multiple() {
    let r = Repeat { element: 0 };
    assert_eq!(r.single(), Err(Error::MultipleElements));
}

#[test]
fn single_or_on_empty_gives_default() {
    let v: Vec<i32> = vec![];
    assert_eq!(v.single_or(5), 5);
}

#[test]
fn single_or_on_one_gives_element() {
    assert_eq!(vec![0].single_or(5), 0);
}

#[test]
fn single_or_on_endless_repetition_gives_default() {
    let r = Repeat { element: 0 };
    assert_eq!(r.single_or(5), 5);
}

#[test]
fn single_or_else_on_one_never_calls_fallback() {
    let calls: Cell<u32> = Cell::new(0);
    let out = vec![0].single_or_else(|| {
        calls.set(calls.get() + 1);
        5
    });
    assert_eq!(out, 0);
    assert_eq!(calls.get(), 0);
}

#[test]
fn single_or_else_on_empty_calls_fallback_once() {
    let calls: Cell<u32> = Cell::new(0);
    let v: Vec<i32> = vec![];
    let out = v.single_or_else(|| {
        calls.set(calls.get() + 1);
        5
    });
    assert_eq!(out, 5);
    assert_eq!(calls.get(), 1);
}

#[test]
fn single_or_else_on_endless_repetition_calls_fallback_once() {
    let calls: Cell<u32> = Cell::new(0);
    let r = Repeat { element: 0 };
    let out = r.single_or_else(|| {
        calls.set(calls.get() + 1);
        5
    });
    assert_eq!(out, 5);
    assert_eq!(calls.get(), 1);
}

#[test]
fn single_exact_on_one_gives_element() {
    assert_eq!(vec![4].single_exact(), 4);
}

#[test]
fn tail_is_never_inspected() {
    // The classification of a long sequence agrees with that of its first two
    // elements alone.
    let long = vec![7, 8, 9, 10, 11];
    let short = vec![7, 8];
    assert_eq!(long.single(), short.single());
}

#[test]
fn error_descriptions_are_fixed() {
    assert_eq!(
        Error::NoElements.description(),
        "Called single() on empty iterator"
    );
    assert_eq!(
        Error::MultipleElements.description(),
        "Called single() on multiple-element iterator"
    );
}

#[test]
fn errors_compare_by_kind() {
    assert_eq!(Error::NoElements, Error::NoElements);
    assert_ne!(Error::NoElements, Error::MultipleElements);
}

#[test]
fn works_with_owned_element_types() {
    let v: Vec<String> = vec![String::from("only")];
    assert_eq!(v.single(), Ok(String::from("only")));
}
