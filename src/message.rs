use vstd::prelude::*;
use vstd::string::StringExecFns;

use crate::text::{push_signed_decimal, signed_decimal};

verus! {

/// A message: stop, some text to write, or a move to a point.
#[derive(Debug)]
pub enum Msg {
    Quit,
    Write(String),
    Move { x: i32, y: i32 },
}

/// The name of a message's kind.
pub open spec fn kind_name(m: Msg) -> Seq<char> {
    match m {
        Msg::Quit => "quit"@,
        Msg::Write(_) => "write"@,
        Msg::Move { .. } => "move"@,
    }
}

/// The line that reports a message: `quit`, `write: <text>` or `move: <x>,<y>`.
pub open spec fn report(m: Msg) -> Seq<char> {
    match m {
        Msg::Quit => "quit"@,
        Msg::Write(s) => "write: "@ + s@,
        Msg::Move { x, y } => "move: "@ + signed_decimal(x as int) + ","@ + signed_decimal(
            y as int,
        ),
    }
}

/// The name of the message's kind.
pub fn describe(m: Msg) -> (r: &'static str)
    ensures
        r@ == kind_name(m),
{
    match m {
        Msg::Quit => "quit",
        Msg::Write(_) => "write",
        Msg::Move { .. } => "move",
    }
}

/// The line that reports the message.
pub fn handle_line(m: &Msg) -> (r: String)
    ensures
        r@ == report(*m),
{
    match m {
        Msg::Quit => String::from_str("quit"),
        Msg::Write(s) => {
            let mut r = String::from_str("write: ");
            r.append(s.as_str());
            r
        },
        Msg::Move { x, y } => {
            let mut r = String::from_str("move: ");
            push_signed_decimal(&mut r, *x);
            r.append(",");
            push_signed_decimal(&mut r, *y);
            r
        },
    }
}

} // verus!
