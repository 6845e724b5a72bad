//! What can go wrong at the boundary of the library.

use vstd::prelude::*;
use vstd::string::*;

verus! {

/// The shape of a seeding input.
#[derive(Clone, Copy, PartialEq, Eq, Debug)]
pub enum Shape {
    /// A single number.
    Scalar,
    /// An array of the given length.
    Array(usize),
}

/// The errors of the library. Numeric edge cases are none of them: a
/// division by zero or a logarithm outside its domain yields what the
/// coefficient arithmetic yields.
#[derive(Clone, Copy, PartialEq, Eq, Debug)]
pub enum Error {
    /// No seeding is defined for inputs of these shapes. `second` is the
    /// shape of the second input, where one was given.
    UnsupportedShape { first: Shape, second: Option<Shape> },
    /// The right-hand operand of an operator is neither a plain scalar nor a
    /// jet of the same type.
    InvalidOperand,
}

/// The text of one decimal digit.
pub open spec fn digit_text(d: nat) -> Seq<char> {
    if d == 0 {
        "0"@
    } else if d == 1 {
        "1"@
    } else if d == 2 {
        "2"@
    } else if d == 3 {
        "3"@
    } else if d == 4 {
        "4"@
    } else if d == 5 {
        "5"@
    } else if d == 6 {
        "6"@
    } else if d == 7 {
        "7"@
    } else if d == 8 {
        "8"@
    } else {
        "9"@
    }
}

/// The decimal text of `n`, without leading zeros.
pub open spec fn decimal_spec(n: nat) -> Seq<char>
    decreases n,
{
    if n < 10 {
        digit_text(n)
    } else {
        decimal_spec(n / 10) + digit_text(n % 10)
    }
}

fn digit(d: usize) -> (s: &'static str)
    requires
        d < 10,
    ensures
        s@ == digit_text(d as nat),
{
    if d == 0 {
        "0"
    } else if d == 1 {
        "1"
    } else if d == 2 {
        "2"
    } else if d == 3 {
        "3"
    } else if d == 4 {
        "4"
    } else if d == 5 {
        "5"
    } else if d == 6 {
        "6"
    } else if d == 7 {
        "7"
    } else if d == 8 {
        "8"
    } else {
        "9"
    }
}

/// The decimal text of `n`.
pub fn decimal(n: usize) -> (s: String)
    ensures
        s@ == decimal_spec(n as nat),
    decreases n,
{
    if n < 10 {
        String::from_str(digit(n))
    } else {
        let mut s = decimal(n / 10);
        s.append(digit(n % 10));
        s
    }
}

impl Shape {
    /// The shape in words.
    pub open spec fn text_spec(self) -> Seq<char> {
        match self {
            Shape::Scalar => "a scalar"@,
            Shape::Array(n) => "an array of length "@ + decimal_spec(n as nat),
        }
    }

    /// The shape in words.
    pub fn text(&self) -> (s: String)
        ensures
            s@ == self.text_spec(),
    {
        match self {
            Shape::Scalar => String::from_str("a scalar"),
            Shape::Array(n) => {
                let mut s = String::from_str("an array of length ");
                s.append(decimal(*n).as_str());
                s
            },
        }
    }
}

impl Error {
    /// The message of the error: for an unsupported shape it names the shape
    /// of each input.
    pub open spec fn message_spec(self) -> Seq<char> {
        match self {
            Error::UnsupportedShape { first, second: None } => "unsupported input: "@
                + first.text_spec(),
            Error::UnsupportedShape { first, second: Some(second) } => "unsupported input: "@
                + first.text_spec() + " and "@ + second.text_spec(),
            Error::InvalidOperand => {
                "invalid operand: neither a scalar nor a jet of the same type"@
            },
        }
    }

    /// The message of the error.
    pub fn message(&self) -> (s: String)
        ensures
            s@ == self.message_spec(),
    {
        match self {
            Error::UnsupportedShape { first, second } => {
                let mut s = String::from_str("unsupported input: ");
                s.append(first.text().as_str());
                match second {
                    Some(second) => {
                        s.append(" and ");
                        s.append(second.text().as_str());
                    },
                    None => {},
                }
                s
            },
            Error::InvalidOperand => String::from_str(
                "invalid operand: neither a scalar nor a jet of the same type",
            ),
        }
    }
}

} // verus!
