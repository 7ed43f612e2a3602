use iter_accumulate::IterAccumulate;
use iter_accumulate::Source;
use iter_accumulate::VecSource;

#[test]
fn empty_source_is_exhausted_at_once() {
    let src = VecSource::new(Vec::<i32>::new());
    let mut it = src.accumulate(42, |_acc: i32, _x: i32| -> i32 {
        panic!("the combining closure must not be called on an empty source")
    });
    assert_eq!(it.next(), None);
}

#[test]
fn yields_once_per_source_element() {
    let src = VecSource::new(vec![9, 9, 9, 9]);
    let mut it = src.accumulate(0, |acc: i32, x: i32| acc + x);
    let mut successes = 0;
    while it.next().is_some() {
        successes += 1;
    }
    assert_eq!(successes, 4);
}

#[test]
fn size_hint_passes_the_sources_hint_through() {
    let src = VecSource::new(vec![10, 20, 30]);
    let mut it = src.accumulate(0, |acc: i32, x: i32| acc + x);
    assert_eq!(it.size_hint(), (3, Some(3)));
    it.next();
    assert_eq!(it.size_hint(), (2, Some(2)));
    it.next();
    assert_eq!(it.size_hint(), (1, Some(1)));
    it.next();
    assert_eq!(it.size_hint(), (0, Some(0)));
    it.next();
    assert_eq!(it.size_hint(), (0, Some(0)));
}

#[test]
fn count_equals_number_of_successful_steps() {
    let make = || {
        let src = VecSource::new(vec![2, 4, 6, 8, 10]);
        src.accumulate(0, |acc: i32, x: i32| acc + x)
    };
    let mut it = make();
    let mut successes = 0;
    while it.next().is_some() {
        successes += 1;
    }
    assert_eq!(make().count(), successes);
}

#[test]
fn count_does_not_call_the_closure() {
    let src = VecSource::new(vec![1, 2, 3]);
    let it = src.accumulate(0, |_acc: i32, _x: i32| -> i32 {
        panic!("counting must not fold anything")
    });
    assert_eq!(it.count(), 3);
}

#[test]
fn count_after_some_steps_counts_the_rest() {
    let src = VecSource::new(vec![1, 2, 3, 4]);
    let mut it = src.accumulate(1, |acc: i32, x: i32| acc * x);
    it.next();
    it.next();
    assert_eq!(it.count(), 2);
}

#[test]
fn vec_source_yields_elements_in_order() {
    let mut src = VecSource::new(vec![7, 8]);
    assert_eq!(src.size_hint(), (2, Some(2)));
    assert_eq!(src.next_item(), Some(7));
    assert_eq!(src.size_hint(), (1, Some(1)));
    assert_eq!(src.next_item(), Some(8));
    assert_eq!(src.next_item(), None);
    assert_eq!(src.size_hint(), (0, Some(0)));
    assert_eq!(src.count_rest(), 0);
}

#[test]
fn vec_source_count_rest_reports_what_remains() {
    let src = VecSource::new(vec![4, 5, 6]);
    assert_eq!(src.count_rest(), 3);
}
