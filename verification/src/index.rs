//! Positions in a listbox.

use crate::decimal::{
    decimal, decimal_of_u64, is_digit, lemma_decimal_injective, lemma_decimal_shape,
};
use vstd::prelude::*;
use vstd::std_specs::convert::FromSpecImpl;
use vstd::string::StringExecFns;

verus! {

/// One element position of a listbox.
#[derive(Clone, Copy, Debug, PartialEq, Eq, Structural)]
pub enum Index {
    /// The element at this position, counted from zero.
    Number(u64),
    /// The element that has the location cursor.
    Active,
    /// The anchor point of the selection.
    Anchor,
    /// The end of the list.
    End,
    /// The element nearest to this pixel coordinate.
    At(u64),
}

impl Index {
    /// The token that names this position in a command.
    pub open spec fn token(self) -> Seq<char> {
        match self {
            Index::Number(n) => decimal(n as int),
            Index::Active => "active"@,
            Index::Anchor => "anchor"@,
            Index::End => "end"@,
            Index::At(n) => seq!['@'] + decimal(n as int),
        }
    }

    /// The start of a range that gives none: the first element.
    pub fn default_start() -> (r: Index)
        ensures
            r == Index::Number(0),
    {
        Index::Number(0)
    }

    /// The end of a range that gives none: the end of the list.
    pub fn default_end() -> (r: Index)
        ensures
            r == Index::End,
    {
        Index::End
    }

    /// Encodes a position as the single token that a command carries for
    /// it: a number in decimal, a marker by its name, a pixel coordinate as
    /// `@` and the number.
    pub fn encode(self) -> (r: String)
        ensures
            r@ == self.token(),
    {
        match self {
            Index::Number(n) => decimal_of_u64(n),
            Index::Active => String::from_str("active"),
            Index::Anchor => String::from_str("anchor"),
            Index::End => String::from_str("end"),
            Index::At(n) => {
                let mut s = String::from_str("@");
                proof {
                    reveal_strlit("@");
                }
                let d = decimal_of_u64(n);
                s.append(d.as_str());
                assert(s@ =~= seq!['@'] + decimal(n as int));
                s
            },
        }
    }
}

impl From<u64> for Index {
    /// A number stands for the element at that position.
    fn from(number: u64) -> (r: Index) {
        Index::Number(number)
    }
}

impl FromSpecImpl<u64> for Index {
    open spec fn obeys_from_spec() -> bool {
        true
    }

    open spec fn from_spec(number: u64) -> Index {
        Index::Number(number)
    }
}

/// Different positions have different tokens, so a token names one
/// position only.
pub proof fn lemma_token_injective(a: Index, b: Index)
    requires
        a.token() == b.token(),
    ensures
        a == b,
{
    reveal_strlit("active");
    reveal_strlit("anchor");
    reveal_strlit("end");
    let number_of = |i: Index|
        match i {
            Index::Number(n) => n as int,
            Index::At(n) => n as int,
            _ => 0int,
        };
    let (x, y) = (number_of(a), number_of(b));
    lemma_decimal_shape(x);
    lemma_decimal_shape(y);
    assert(is_digit(decimal(x)[0]));
    assert(is_digit(decimal(y)[0]));
    let (s, t) = (a.token(), b.token());
    assert(s[0] == t[0]);
    assert(s.len() == t.len());
    match (a, b) {
        (Index::Number(_), Index::Number(_)) => {
            lemma_decimal_injective(x, y);
        },
        (Index::At(_), Index::At(_)) => {
            assert(s.skip(1) =~= decimal(x));
            assert(t.skip(1) =~= decimal(y));
            lemma_decimal_injective(x, y);
        },
        (Index::Active, Index::Anchor) => {
            assert(s[1] == t[1]);
        },
        (Index::Anchor, Index::Active) => {
            assert(s[1] == t[1]);
        },
        _ => {},
    }
}

} // verus!
