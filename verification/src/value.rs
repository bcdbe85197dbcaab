//! The static content an attribute can carry: an already-textualizable
//! primitive (a string, a boolean, or an unsigned number).

use vstd::prelude::*;
use vstd::string::StringExecFns;

verus! {

/// A textualizable primitive used as an attribute's static content.
pub enum Value {
    /// A plain string.
    Text(String),
    /// A boolean, rendered as `true` or `false`.
    Bool(bool),
    /// An unsigned number, rendered in decimal.
    UInt(u64),
}

/// The one-character text of the decimal digit `d` (`d < 10`).
pub open spec fn digit_text(d: nat) -> Seq<char> {
    if d == 0 {
        "0"@
    } else if d == 1 {
        "1"@
    } else if d == 2 {
        "2"@
    } else if d == 3 {
        "3"@
    } else if d == 4 {
        "4"@
    } else if d == 5 {
        "5"@
    } else if d == 6 {
        "6"@
    } else if d == 7 {
        "7"@
    } else if d == 8 {
        "8"@
    } else {
        "9"@
    }
}

/// The decimal rendering of `n`, most significant digit first, without
/// leading zeros (`0` itself is rendered as `0`).
pub open spec fn dec_text(n: nat) -> Seq<char>
    decreases n,
{
    if n < 10 {
        digit_text(n)
    } else {
        dec_text(n / 10) + digit_text(n % 10)
    }
}

/// The text of a machine digit.
fn digit_str(d: u64) -> (r: &'static str)
    requires
        d < 10,
    ensures
        r@ == digit_text(d as nat),
{
    if d == 0 {
        "0"
    } else if d == 1 {
        "1"
    } else if d == 2 {
        "2"
    } else if d == 3 {
        "3"
    } else if d == 4 {
        "4"
    } else if d == 5 {
        "5"
    } else if d == 6 {
        "6"
    } else if d == 7 {
        "7"
    } else if d == 8 {
        "8"
    } else {
        "9"
    }
}

/// Appends the decimal rendering of `n` to `s`.
fn push_dec(s: &mut String, n: u64)
    ensures
        final(s)@ == old(s)@ + dec_text(n as nat),
    decreases n,
{
    if n >= 10 {
        push_dec(s, n / 10);
        let d = digit_str(n % 10);
        s.append(d);
    } else {
        let d = digit_str(n);
        s.append(d);
    }
}

impl Value {
    /// The text this value renders as inside attribute markup.
    pub open spec fn text(self) -> Seq<char> {
        match self {
            Value::Text(s) => s@,
            Value::Bool(b) => if b {
                "true"@
            } else {
                "false"@
            },
            Value::UInt(n) => dec_text(n as nat),
        }
    }

    /// Renders this value as the text that `text` describes.
    pub fn render(&self) -> (r: String)
        ensures
            r@ == self.text(),
    {
        match self {
            Value::Text(s) => s.clone(),
            Value::Bool(b) => if *b {
                String::from_str("true")
            } else {
                String::from_str("false")
            },
            Value::UInt(n) => {
                let mut s = String::new();
                push_dec(&mut s, *n);
                s
            },
        }
    }
}

} // verus!
