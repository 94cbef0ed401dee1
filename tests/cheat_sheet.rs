use std::collections::HashMap;

use cheat_sheet::basics::{add, borrow_mut, id, maybe_pos, pick_longer, Point};
use cheat_sheet::collections::insert_twice;
use cheat_sheet::message::{describe, handle_line, Msg};
use cheat_sheet::parse::{parse_i32, wrapper_using_q};
use cheat_sheet::speak::Speak;
use cheat_sheet::text::{push_decimal, push_signed_decimal};
use cheat_sheet::user::User;

#[test]
fn test_add() {
    assert_eq!(add(2, 3), 5);
}

#[test]
fn test_pick_longer() {
    assert_eq!(pick_longer("aa", "bbbb"), "bbbb");
}

#[test]
fn add_negative_and_extremes() {
    assert_eq!(add(-7, 3), -4);
    assert_eq!(add(i32::MAX, 0), i32::MAX);
    assert_eq!(add(i32::MIN, 1), i32::MIN + 1);
}

#[test]
fn pick_longer_second_is_longer() {
    assert_eq!(pick_longer("short", "looooong"), "looooong");
}

#[test]
fn pick_longer_first_is_longer() {
    assert_eq!(pick_longer("longest", "tiny"), "longest");
}

#[test]
fn pick_longer_tie_takes_second() {
    let a = String::from("same");
    let b = String::from("same");
    let r = pick_longer(&a, &b);
    assert!(std::ptr::eq(r, b.as_str()));
    assert_eq!(pick_longer("ab", "cd"), "cd");
}

#[test]
fn pick_longer_counts_bytes() {
    // two characters, four bytes in UTF-8, against three one-byte characters
    assert_eq!(pick_longer("éé", "abc"), "éé");
}

#[test]
fn parse_i32_accepts_number() {
    assert_eq!(parse_i32("123"), Ok(123));
    assert_eq!(parse_i32("-45"), Ok(-45));
    assert_eq!(parse_i32("+8"), Ok(8));
    assert_eq!(parse_i32("2147483647"), Ok(i32::MAX));
    assert_eq!(parse_i32("-2147483648"), Ok(i32::MIN));
}

#[test]
fn parse_i32_rejects_text() {
    assert!(parse_i32("abc").is_err());
    assert!(parse_i32("").is_err());
    assert!(parse_i32("-").is_err());
    assert!(parse_i32(" 1").is_err());
    assert!(parse_i32("1_000").is_err());
    assert!(parse_i32("2147483648").is_err());
    assert!(parse_i32("-2147483649").is_err());
}

#[test]
fn wrapper_using_q_adds_one() {
    assert_eq!(wrapper_using_q(), Ok(78));
}

#[test]
fn maybe_pos_cases() {
    assert_eq!(maybe_pos(-1), None);
    assert_eq!(maybe_pos(0), None);
    assert_eq!(maybe_pos(7), Some(7));
}

#[test]
fn borrow_mut_appends_bang() {
    let mut t = String::from("yo");
    borrow_mut(&mut t);
    assert_eq!(t, "yo!");
}

#[test]
fn id_returns_argument() {
    assert_eq!(id(9), 9);
    assert_eq!(id("hi"), "hi");
}

#[test]
fn user_birthday_and_greet() {
    let mut user = User::new("alex", 20);
    assert_eq!(user.name, "alex");
    assert_eq!(user.age, 20);
    user.birthday();
    assert_eq!(user.age, 21);
    assert_eq!(user.name, "alex");
    assert_eq!(user.greet(), "hello alex, age 21");
}

#[test]
fn user_greet_zero_age() {
    let user = User::new("bo", 0);
    assert_eq!(user.greet(), "hello bo, age 0");
}

#[test]
fn describe_each_kind() {
    assert_eq!(describe(Msg::Quit), "quit");
    assert_eq!(describe(Msg::Write(String::from("hey"))), "write");
    assert_eq!(describe(Msg::Move { x: 3, y: 4 }), "move");
}

#[test]
fn handle_line_each_kind() {
    assert_eq!(handle_line(&Msg::Quit), "quit");
    assert_eq!(handle_line(&Msg::Write(String::from("hey"))), "write: hey");
    assert_eq!(handle_line(&Msg::Move { x: 3, y: 4 }), "move: 3,4");
    assert_eq!(handle_line(&Msg::Move { x: -12, y: 0 }), "move: -12,0");
}

#[test]
fn speak_number_and_text() {
    assert_eq!(42i32.speak(), "num 42");
    assert_eq!((-7i32).speak(), "num -7");
    assert_eq!(String::from("yo").speak(), "str yo");
}

#[test]
fn decimal_notation() {
    let mut s = String::from("n=");
    push_decimal(&mut s, 0);
    assert_eq!(s, "n=0");
    let mut s = String::new();
    push_decimal(&mut s, u64::MAX);
    assert_eq!(s, "18446744073709551615");
    let mut s = String::new();
    push_signed_decimal(&mut s, i32::MIN);
    assert_eq!(s, "-2147483648");
    let mut s = String::new();
    push_signed_decimal(&mut s, 1050);
    assert_eq!(s, "1050");
}

#[test]
fn set_insert_twice_has_one() {
    let set = insert_twice(10);
    assert_eq!(set.len(), 1);
    assert!(set.contains(&10));
    let set = insert_twice(-3);
    assert_eq!(set.len(), 1);
    assert!(set.contains(&-3));
}

#[test]
fn map_lookup_after_insert() {
    let mut m: HashMap<&str, i32> = HashMap::new();
    m.insert("a", 1);
    m.entry("b").or_insert(2);
    assert_eq!(m.get("a"), Some(&1));
    assert_eq!(m.get("b"), Some(&2));
    assert_eq!(m.get("z"), None);
}

#[test]
fn point_holds_coordinates() {
    let p = Point { x: 1.0, y: 2.0 };
    assert_eq!(p.x, 1.0);
    assert_eq!(p.y, 2.0);
}
