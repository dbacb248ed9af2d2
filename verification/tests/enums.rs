use primer::matching::{
    get_plus_one, plus_one, plus_one_nonone, special1_3, value_in_cents, Coin, UsState,
};
use primer::messages::{route, IpAddrKind, Message};

#[test]
fn coins_have_their_face_value() {
    assert_eq!(value_in_cents(Coin::Penny), 1);
    assert_eq!(value_in_cents(Coin::Nickel), 5);
    assert_eq!(value_in_cents(Coin::Dime), 10);
    assert_eq!(value_in_cents(Coin::Quarter(UsState::Alabama)), 25);
    assert_eq!(value_in_cents(Coin::Quarter(UsState::Alaska)), 25);
}

#[test]
fn plus_one_unwraps_and_increments() {
    assert_eq!(plus_one(Some(5)), 6);
    assert_eq!(plus_one(None), 0);
    assert_eq!(get_plus_one(Some(5)), 6);
    assert_eq!(get_plus_one(None), 0);
}

#[test]
fn plus_one_nonone_keeps_the_wrapper() {
    assert_eq!(plus_one_nonone(Some(5)), Some(6));
    assert_eq!(plus_one_nonone(None), None);
}

#[test]
fn only_one_and_three_are_special() {
    assert_eq!(special1_3(Some(3)), 3);
    assert_eq!(special1_3(Some(1)), 1);
    assert_eq!(special1_3(Some(4)), 0);
    assert_eq!(special1_3(None), 0);
}

#[test]
fn messages_can_be_called_and_addresses_routed() {
    let m = Message::Write(String::from("hello"));
    m.call();
    let q = Message::Quit;
    q.call();
    let mv = Message::Move { x: 1, y: 2 };
    mv.call();
    let c = Message::ChangeColor(0, 0, 0);
    c.call();
    route(IpAddrKind::V4);
    route(IpAddrKind::V6);
}
