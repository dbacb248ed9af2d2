use primer::adder::{add, greeting, Guess, Rectangle};

#[test]
fn lib_it_works() {
    let result = add(2, 2);
    assert_eq!(result, 4);
}

#[test]
fn not_equal() {
    let a = 3;
    assert_ne!(a, 2);
}

#[test]
fn it_works_result() -> Result<(), String> {
    if 2 + 2 == 4 {
        Ok(())
    } else {
        Err(String::from("two plus two does not equal four"))
    }
}

#[test]
fn greeting_is_fixed() {
    assert_eq!(greeting("Carol"), "Hello");
}

#[test]
fn strictly_larger_can_hold() {
    let larger = Rectangle { length: 8, width: 9 };
    let smaller = Rectangle { length: 5, width: 8 };
    assert!(larger.can_hold(&smaller));
}

#[test]
fn equal_sides_cannot_hold() {
    let larger = Rectangle { length: 8, width: 7 };
    let smaller = Rectangle { length: 5, width: 7 };
    assert!(!larger.can_hold(&smaller));
}

#[test]
fn guess_in_range_is_accepted() {
    let _ = Guess::new(50);
}
