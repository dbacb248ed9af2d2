use primer::vectors::{get_average, get_middle, get_most, sort};

#[test]
fn sorting_orders_the_numbers() {
    let mut arr = vec![2, 5, 13, 42, 1, 31, 13, 1, 4, 413, 13, 12, 13, 41, -1, 10, 2];
    sort(&mut arr);
    assert_eq!(arr, vec![-1, 1, 1, 2, 2, 4, 5, 10, 12, 13, 13, 13, 13, 31, 41, 42, 413]);
}

#[test]
fn sorting_an_empty_vector_is_fine() {
    let mut arr: Vec<i32> = vec![];
    sort(&mut arr);
    assert!(arr.is_empty());
}

#[test]
fn the_middle_element_after_sorting_is_the_median() {
    let mut arr = vec![2, 5, 13, 42, 1, 31, 13, 1, 4, 413, 13, 12, 13, 41, -1, 10, 2];
    sort(&mut arr);
    assert_eq!(get_middle(&arr), 12);
}

#[test]
fn the_most_frequent_element_wins() {
    let arr = vec![2, 5, 13, 42, 1, 31, 13, 1, 4, 413, 13, 12, 13, 41, -1, 10, 2];
    assert_eq!(get_most(&arr), 13);
}

#[test]
fn ties_go_to_the_first_element_to_reach_the_count() {
    let arr = vec![2, 1, 1, 2];
    assert_eq!(get_most(&arr), 1);
    let arr2 = vec![2, 2, 1, 1];
    assert_eq!(get_most(&arr2), 2);
}

#[test]
fn the_most_of_an_empty_vector_is_zero() {
    let arr: Vec<i32> = vec![];
    assert_eq!(get_most(&arr), 0);
}

#[test]
fn the_average_truncates_towards_zero() {
    let arr = vec![1, 2, 3, 5];
    assert_eq!(get_average(&arr), 2);
    let neg = vec![-1, -2, -3, -5];
    assert_eq!(get_average(&neg), -2);
}
