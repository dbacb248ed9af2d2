use primer::generics::{
    get_largest, largest_char, largest_fanxing, largest_fanxing_yinyong, largest_i32, Point,
    PointDouble,
};

#[test]
fn the_largest_number_is_found() {
    let number_list = vec![34, 50, 25, 100, 65];
    assert_eq!(get_largest(&number_list), 100);
    assert_eq!(largest_i32(&number_list), 100);
    let long_list = vec![102, 34, 6000, 89, 54, 2, 43, 8];
    assert_eq!(get_largest(&long_list), 6000);
}

#[test]
fn the_largest_char_is_found() {
    let char_list = vec!['y', 'm', 'a', 'q'];
    assert_eq!(largest_char(&char_list), 'y');
}

#[test]
fn the_generic_largest_agrees() {
    let number_list = vec![34, 50, 25, 100, 65];
    assert_eq!(largest_fanxing(&number_list), 100);
    assert_eq!(*largest_fanxing_yinyong(&number_list), 100);
    let char_list = vec!['y', 'm', 'a', 'q'];
    assert_eq!(largest_fanxing(&char_list), 'y');
    assert_eq!(*largest_fanxing_yinyong(&char_list), 'y');
}

#[test]
fn points_expose_their_first_coordinate() {
    let p = Point { x: 5, y: 10 };
    assert_eq!(*p.x(), 5);
}

#[test]
fn mixup_takes_one_coordinate_from_each() {
    let p1 = PointDouble { x: 5, y: 10.4 };
    let p2 = PointDouble { x: "Hello", y: 'c' };
    let p3 = p1.mixup(p2);
    assert_eq!(p3.x, 5);
    assert_eq!(p3.y, 'c');
}
