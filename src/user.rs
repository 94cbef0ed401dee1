use vstd::prelude::*;
use vstd::string::StringExecFns;

use crate::text::{decimal, push_decimal};

verus! {

/// A person with a name and an age in years.
#[derive(Debug)]
pub struct User {
    pub name: String,
    pub age: u32,
}

/// The greeting a user gives: `hello <name>, age <age>`.
pub open spec fn greeting(name: Seq<char>, age: nat) -> Seq<char> {
    "hello "@ + name + ", age "@ + decimal(age)
}

impl User {
    /// A user with the given name and age.
    pub fn new(name: &str, age: u32) -> (r: Self)
        ensures
            r.name@ == name@,
            r.age == age,
    {
        User { name: name.to_owned(), age }
    }

    /// One year older; the name stays.
    pub fn birthday(&mut self)
        requires
            old(self).age < u32::MAX,
        ensures
            final(self).age == old(self).age + 1,
            final(self).name@ == old(self).name@,
    {
        self.age = self.age + 1;
    }

    /// The user's greeting.
    pub fn greet(&self) -> (r: String)
        ensures
            r@ == greeting(self.name@, self.age as nat),
    {
        let mut s = String::from_str("hello ");
        s.append(self.name.as_str());
        s.append(", age ");
        push_decimal(&mut s, self.age as u64);
        s
    }
}

} // verus!
