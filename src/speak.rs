use vstd::prelude::*;
use vstd::string::StringExecFns;

use crate::text::{push_signed_decimal, signed_decimal};

verus! {

/// Something that can say what it is.
pub trait Speak {
    /// What the value says.
    spec fn spoken(&self) -> Seq<char>;

    fn speak(&self) -> (r: String)
        ensures
            r@ == self.spoken(),
    ;
}

impl Speak for i32 {
    /// `num <n>`.
    open spec fn spoken(&self) -> Seq<char> {
        "num "@ + signed_decimal(*self as int)
    }

    fn speak(&self) -> (r: String) {
        let mut r = String::from_str("num ");
        push_signed_decimal(&mut r, *self);
        r
    }
}

impl Speak for String {
    /// `str <text>`.
    open spec fn spoken(&self) -> Seq<char> {
        "str "@ + self@
    }

    fn speak(&self) -> (r: String) {
        let mut r = String::from_str("str ");
        r.append(self.as_str());
        r
    }
}

} // verus!
