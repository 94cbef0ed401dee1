use vstd::prelude::*;

use crate::text::push_char;

verus! {

/// Sum of two integers; the caller keeps the sum inside the `i32` range.
pub fn add(a: i32, b: i32) -> (r: i32)
    requires
        i32::MIN <= a + b <= i32::MAX,
    ensures
        r == a + b,
{
    a + b
}

/// Appends an exclamation mark to the string it is lent.
pub fn borrow_mut(s: &mut String)
    ensures
        final(s)@ == old(s)@.push('!'),
{
    push_char(s, '!');
}

/// The number itself when it is positive, nothing otherwise.
pub fn maybe_pos(n: i32) -> (r: Option<i32>)
    ensures
        r == (if n > 0 { Some(n) } else { None::<i32> }),
{
    if n > 0 {
        Some(n)
    } else {
        None
    }
}

/// Hands its argument back unchanged.
pub fn id<T>(x: T) -> (r: T)
    ensures
        r == x,
{
    x
}

/// The longer of two string slices, by length in bytes of their UTF-8
/// encoding; on a tie, the second.
pub fn pick_longer<'a>(a: &'a str, b: &'a str) -> (r: &'a str)
    ensures
        r == (if a.len() > b.len() { a } else { b }),
{
    if a.len() > b.len() {
        a
    } else {
        b
    }
}

/// A point in the plane with coordinates of any one type.
#[derive(Debug)]
pub struct Point<T> {
    pub x: T,
    pub y: T,
}

} // verus!
