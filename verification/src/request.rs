//! Commands for the toolkit, each with the way to read its reply.
//!
//! An operation of the widget is one exchange: its tokens go to the toolkit,
//! and what comes back, the reply or the failure that the toolkit reported,
//! is read by `decode` into the operation's result.
//!
//! A reply arrives as its text. A reply that is a list arrives as the
//! elements that the toolkit's own list reader finds in it, each one
//! unquoted, or as `None` where that reader refuses the reply.

use crate::decimal::{i64_of, parse_i64};
use crate::reply::{
    boolean_of, parse_boolean, parse_integers, reads_numbers, DecodeError, Error, InterpError,
};
use vstd::prelude::*;

verus! {

/// Appends one token to a command.
pub fn push_token(command: &mut Vec<String>, token: String)
    ensures
        final(command).deep_view() == old(command).deep_view().push(token@),
{
    command.push(token);
    assert(command.deep_view() =~= old(command).deep_view().push(token@));
}

/// A command that changes the widget and yields no value.
#[derive(Clone, Debug, PartialEq, Eq)]
pub struct Command {
    /// The widget's path, the subcommand and its arguments.
    pub tokens: Vec<String>,
}

/// A command whose reply is taken as it is.
#[derive(Clone, Debug, PartialEq, Eq)]
pub struct TextQuery {
    /// The widget's path, the subcommand and its arguments.
    pub tokens: Vec<String>,
}

/// A command whose reply is a list of elements.
#[derive(Clone, Debug, PartialEq, Eq)]
pub struct ListQuery {
    /// The widget's path, the subcommand and its arguments.
    pub tokens: Vec<String>,
}

/// A command whose reply is a number.
#[derive(Clone, Debug, PartialEq, Eq)]
pub struct IntegerQuery {
    /// The widget's path, the subcommand and its arguments.
    pub tokens: Vec<String>,
}

/// A command whose reply is a list of numbers.
#[derive(Clone, Debug, PartialEq, Eq)]
pub struct IntegerListQuery {
    /// The widget's path, the subcommand and its arguments.
    pub tokens: Vec<String>,
}

/// A command whose reply is a truth value.
#[derive(Clone, Debug, PartialEq, Eq)]
pub struct BooleanQuery {
    /// The widget's path, the subcommand and its arguments.
    pub tokens: Vec<String>,
}

impl Command {
    /// The result of the command: success whatever the reply holds, or the
    /// failure that the toolkit reported.
    pub fn decode(&self, outcome: Result<String, InterpError>) -> (r: Result<(), InterpError>)
        ensures
            match outcome {
                Ok(_) => r == Ok::<(), InterpError>(()),
                Err(e) => r == Err::<(), InterpError>(e),
            },
    {
        match outcome {
            Ok(_) => Ok(()),
            Err(e) => Err(e),
        }
    }
}

impl TextQuery {
    /// The result of the query: the reply text unchanged, be it empty, or
    /// the failure that the toolkit reported.
    pub fn decode(&self, outcome: Result<String, InterpError>) -> (r: Result<String, InterpError>)
        ensures
            r == outcome,
    {
        outcome
    }
}

impl ListQuery {
    /// The result of the query: every element of the reply once, in the
    /// order of the reply and unchanged, be it empty or a repetition; a
    /// decoding error where the reply is no list; or the failure that the
    /// toolkit reported.
    pub fn decode(&self, outcome: Result<Option<Vec<String>>, InterpError>) -> (r: Result<
        Vec<String>,
        Error,
    >)
        ensures
            match outcome {
                Ok(Some(elements)) => r == Ok::<Vec<String>, Error>(elements),
                Ok(None) => r == Err::<Vec<String>, Error>(Error::Decode(DecodeError::NotList)),
                Err(e) => r == Err::<Vec<String>, Error>(Error::Interp(e)),
            },
    {
        match outcome {
            Ok(Some(elements)) => Ok(elements),
            Ok(None) => Err(Error::Decode(DecodeError::NotList)),
            Err(e) => Err(Error::Interp(e)),
        }
    }
}

impl IntegerQuery {
    /// The result of the query: the number whose decimal text the reply is,
    /// a decoding error for any other reply, or the failure that the toolkit
    /// reported.
    pub fn decode(&self, outcome: Result<String, InterpError>) -> (r: Result<i64, Error>)
        ensures
            match outcome {
                Ok(text) => match i64_of(text@) {
                    Some(n) => r == Ok::<i64, Error>(n),
                    None => r == Err::<i64, Error>(Error::Decode(DecodeError::NotInteger)),
                },
                Err(e) => r == Err::<i64, Error>(Error::Interp(e)),
            },
    {
        match outcome {
            Ok(text) => match parse_i64(text.as_str()) {
                Some(n) => Ok(n),
                None => Err(Error::Decode(DecodeError::NotInteger)),
            },
            Err(e) => Err(Error::Interp(e)),
        }
    }
}

impl IntegerListQuery {
    /// The result of the query: the numbers that the elements of the reply
    /// denote, in order; a decoding error that names the first element that
    /// denotes none; a decoding error where the reply is no list; or the
    /// failure that the toolkit reported.
    pub fn decode(&self, outcome: Result<Option<Vec<String>>, InterpError>) -> (r: Result<
        Vec<i64>,
        Error,
    >)
        ensures
            match outcome {
                Ok(Some(elements)) => match r {
                    Ok(list) => reads_numbers(elements.deep_view(), Ok(list)),
                    Err(Error::Decode(e)) => reads_numbers(elements.deep_view(), Err(e)),
                    Err(Error::Interp(_)) => false,
                },
                Ok(None) => r == Err::<Vec<i64>, Error>(Error::Decode(DecodeError::NotList)),
                Err(e) => r == Err::<Vec<i64>, Error>(Error::Interp(e)),
            },
    {
        match outcome {
            Ok(Some(elements)) => match parse_integers(&elements) {
                Ok(list) => Ok(list),
                Err(e) => Err(Error::Decode(e)),
            },
            Ok(None) => Err(Error::Decode(DecodeError::NotList)),
            Err(e) => Err(Error::Interp(e)),
        }
    }
}

impl BooleanQuery {
    /// The result of the query: the truth value that the reply stands for, a
    /// decoding error for a reply that stands for none, or the failure that
    /// the toolkit reported.
    pub fn decode(&self, outcome: Result<String, InterpError>) -> (r: Result<bool, Error>)
        ensures
            match outcome {
                Ok(text) => match boolean_of(text@) {
                    Some(b) => r == Ok::<bool, Error>(b),
                    None => r == Err::<bool, Error>(Error::Decode(DecodeError::NotBoolean)),
                },
                Err(e) => r == Err::<bool, Error>(Error::Interp(e)),
            },
    {
        match outcome {
            Ok(text) => match parse_boolean(text.as_str()) {
                Some(b) => Ok(b),
                None => Err(Error::Decode(DecodeError::NotBoolean)),
            },
            Err(e) => Err(Error::Interp(e)),
        }
    }
}

} // verus!
