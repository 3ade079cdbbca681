use hydroflow::reduce::{reduce_step, reduce_tick};

#[test]
fn reduce_tick_multiplies_the_items_of_a_tick() {
    let mul = |acc: i64, item: i64| acc * item;
    assert_eq!(reduce_tick(vec![1, 2, 3, 4, 5], &mul), Some(120));
}

#[test]
fn reduce_tick_of_no_items_is_nothing() {
    let add = |acc: i64, item: i64| acc + item;
    assert_eq!(reduce_tick(Vec::new(), &add), None);
    assert_eq!(reduce_tick(vec![7], &add), Some(7));
}

#[test]
fn reduce_folds_in_order() {
    let keep_last_digit = |acc: i64, item: i64| acc * 10 + item;
    assert_eq!(reduce_tick(vec![1, 2, 3], &keep_last_digit), Some(123));
}

#[test]
fn reduce_static_remembers_across_ticks() {
    let add = |acc: i64, item: i64| acc + item;
    let first = reduce_step(None, vec![1, 2], &add);
    assert_eq!(first, Some(3));
    let second = reduce_step(first, vec![3, 4], &add);
    assert_eq!(second, Some(10));
    assert_eq!(second, reduce_tick(vec![1, 2, 3, 4], &add));
    // A tick with no items keeps what was remembered.
    assert_eq!(reduce_step(second, Vec::new(), &add), Some(10));
    // Nothing remembered and no items: nothing.
    assert_eq!(reduce_step(None, Vec::new(), &add), None);
}
