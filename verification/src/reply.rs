//! What a reply can be read as, and how reading it can fail.

use crate::decimal::{decimal, i64_of, lemma_i64_of_exact, parse_i64};
use crate::text::same_text;
use vstd::prelude::*;

verus! {

/// A failure that the toolkit reported when it ran a command.
#[derive(Clone, Debug, PartialEq, Eq)]
pub struct InterpError {
    /// The toolkit's message.
    pub message: String,
}

/// A reply that is not of the form that the operation yields.
#[derive(Clone, Copy, Debug, PartialEq, Eq, Structural)]
pub enum DecodeError {
    /// The reply is not the decimal text of a number that fits in 64 bits.
    NotInteger,
    /// The reply is none of the texts that stand for true and false.
    NotBoolean,
    /// The reply is no list: the toolkit's list reader refused it.
    NotList,
    /// The element at `index` of a list reply is not the decimal text of a
    /// number that fits in 64 bits; every element before it is.
    Element { index: usize },
}

/// Why a query gave no value.
#[derive(Clone, Debug, PartialEq, Eq)]
pub enum Error {
    /// The toolkit could not run the command.
    Interp(InterpError),
    /// The toolkit ran the command, and its reply could not be read.
    Decode(DecodeError),
}

/// The truth value that `s` stands for: `1`, `true`, `yes` and `on` are
/// true, `0`, `false`, `no` and `off` are false, and no other text is
/// either.
pub open spec fn boolean_of(s: Seq<char>) -> Option<bool> {
    if s == "1"@ || s == "true"@ || s == "yes"@ || s == "on"@ {
        Some(true)
    } else if s == "0"@ || s == "false"@ || s == "no"@ || s == "off"@ {
        Some(false)
    } else {
        None
    }
}

/// Reads a truth value.
pub fn parse_boolean(s: &str) -> (r: Option<bool>)
    ensures
        r == boolean_of(s@),
{
    if same_text(s, "1") || same_text(s, "true") || same_text(s, "yes") || same_text(s, "on") {
        Some(true)
    } else if same_text(s, "0") || same_text(s, "false") || same_text(s, "no") || same_text(
        s,
        "off",
    ) {
        Some(false)
    } else {
        None
    }
}

/// Whether each of the first `k` elements is the decimal text of a number
/// that fits in 64 bits.
pub open spec fn numbers_up_to(ws: Seq<Seq<char>>, k: int) -> bool {
    forall|j: int| 0 <= j < k ==> (#[trigger] i64_of(ws[j])) is Some
}

/// Whether `r` is what reading every element of `ws` as a number gives: the
/// numbers in order if every element is one, else the position of the first
/// element that is none.
pub open spec fn reads_numbers(ws: Seq<Seq<char>>, r: Result<Vec<i64>, DecodeError>) -> bool {
    match r {
        Ok(v) => {
            &&& v@.len() == ws.len()
            &&& forall|j: int| 0 <= j < ws.len() ==> #[trigger] i64_of(ws[j]) == Some(v@[j])
        },
        Err(DecodeError::Element { index }) => {
            &&& index < ws.len()
            &&& i64_of(ws[index as int]) is None
            &&& numbers_up_to(ws, index as int)
        },
        Err(_) => false,
    }
}

/// Reads every element as a number. One element that is none fails the
/// whole list: no number is handed out then.
pub fn parse_integers(ws: &Vec<String>) -> (r: Result<Vec<i64>, DecodeError>)
    ensures
        reads_numbers(ws.deep_view(), r),
{
    let mut out: Vec<i64> = Vec::new();
    let mut i: usize = 0;
    while i < ws.len()
        invariant
            i <= ws.len(),
            out@.len() == i,
            forall|j: int| 0 <= j < i ==> #[trigger] i64_of(ws.deep_view()[j]) == Some(out@[j]),
        decreases ws.len() - i,
    {
        assert(ws.deep_view()[i as int] == ws@[i as int]@);
        match parse_i64(ws[i].as_str()) {
            Some(n) => {
                out.push(n);
            },
            None => {
                return Err(DecodeError::Element { index: i });
            },
        }
        i = i + 1;
    }
    Ok(out)
}

/// The decimal texts of the numbers `ns`, in order.
pub open spec fn decimals(ns: Seq<i64>) -> Seq<Seq<char>> {
    Seq::new(ns.len(), |i: int| decimal(ns[i] as int))
}

/// What reading the elements as numbers gives is fixed by the elements:
/// two results for the same elements are both the same numbers or both the
/// same error.
pub proof fn lemma_reads_numbers_unique(
    ws: Seq<Seq<char>>,
    a: Result<Vec<i64>, DecodeError>,
    b: Result<Vec<i64>, DecodeError>,
)
    requires
        reads_numbers(ws, a),
        reads_numbers(ws, b),
    ensures
        match (a, b) {
            (Ok(x), Ok(y)) => x@ == y@,
            (Err(x), Err(y)) => x == y,
            _ => false,
        },
{
    match (a, b) {
        (Ok(x), Ok(y)) => {
            assert forall|j: int| 0 <= j < ws.len() implies x@[j] == y@[j] by {
                assert(i64_of(ws[j]) == Some(x@[j]));
                assert(i64_of(ws[j]) == Some(y@[j]));
            }
            assert(x@ =~= y@);
        },
        (Err(DecodeError::Element { index: i }), Err(DecodeError::Element { index: k })) => {
            if i < k {
                assert(i64_of(ws[i as int]) is Some);
            }
            if k < i {
                assert(i64_of(ws[k as int]) is Some);
            }
        },
        (Ok(x), Err(DecodeError::Element { index: k })) => {
            assert(i64_of(ws[k as int]) == Some(x@[k as int]));
        },
        (Err(DecodeError::Element { index: i }), Ok(y)) => {
            assert(i64_of(ws[i as int]) == Some(y@[i as int]));
        },
        _ => {},
    }
}

/// A list whose elements are the decimal texts of `ns` is read as `ns` and
/// as nothing else.
pub proof fn lemma_numbers_round_trip(ns: Seq<i64>, r: Result<Vec<i64>, DecodeError>)
    requires
        reads_numbers(decimals(ns), r),
    ensures
        r matches Ok(v) && v@ == ns,
{
    let ds = decimals(ns);
    assert forall|i: int| 0 <= i < ds.len() implies #[trigger] i64_of(ds[i]) == Some(ns[i]) by {
        lemma_i64_of_exact(ds[i], ns[i]);
    }
    match r {
        Ok(v) => {
            assert forall|j: int| 0 <= j < ns.len() implies v@[j] == ns[j] by {
                assert(i64_of(ds[j]) == Some(v@[j]));
            }
            assert(v@ =~= ns);
        },
        Err(DecodeError::Element { index }) => {
            assert(i64_of(ds[index as int]) == Some(ns[index as int]));
        },
        Err(_) => {},
    }
}

} // verus!
