//! Display options of single listbox items.

use crate::request::push_token;
use vstd::prelude::*;
use vstd::string::StringExecFns;

verus! {

/// The options that an item of a listbox has.
#[derive(Clone, Copy, Debug, PartialEq, Eq, Structural)]
pub enum TkListboxItemOpt {
    /// The colour behind the item.
    Background,
    /// The colour of the item's text.
    Foreground,
    /// The colour behind the item while it is selected.
    SelectBackground,
    /// The colour of the item's text while it is selected.
    SelectForeground,
}

impl TkListboxItemOpt {
    /// The token that names this option in a command.
    pub open spec fn token(self) -> Seq<char> {
        match self {
            TkListboxItemOpt::Background => "-background"@,
            TkListboxItemOpt::Foreground => "-foreground"@,
            TkListboxItemOpt::SelectBackground => "-selectbackground"@,
            TkListboxItemOpt::SelectForeground => "-selectforeground"@,
        }
    }

    /// The name of this option as commands carry it.
    pub fn name(self) -> (r: &'static str)
        ensures
            r@ == self.token(),
    {
        match self {
            TkListboxItemOpt::Background => "-background",
            TkListboxItemOpt::Foreground => "-foreground",
            TkListboxItemOpt::SelectBackground => "-selectbackground",
            TkListboxItemOpt::SelectForeground => "-selectforeground",
        }
    }
}

/// An option of an item together with the value to give it.
#[derive(Clone, Debug, PartialEq, Eq)]
pub struct OptPair {
    pub name: TkListboxItemOpt,
    pub value: String,
}

/// The tokens that stand for `opts` in a command: for each pair in order,
/// the option's name and then its value.
pub open spec fn option_tokens(opts: Seq<OptPair>) -> Seq<Seq<char>> {
    Seq::new(
        2 * opts.len(),
        |i: int|
            if i % 2 == 0 {
                opts[i / 2].name.token()
            } else {
                opts[i / 2].value@
            },
    )
}

/// Appends to `command` the tokens that stand for `opts`.
pub fn append_opts(command: &mut Vec<String>, opts: &Vec<OptPair>)
    ensures
        final(command).deep_view() == old(command).deep_view() + option_tokens(opts@),
{
    let mut i: usize = 0;
    assert(command.deep_view() =~= old(command).deep_view() + option_tokens(opts@).take(0));
    while i < opts.len()
        invariant
            i <= opts.len(),
            command.deep_view() == old(command).deep_view() + option_tokens(opts@).take(2 * i),
        decreases opts.len() - i,
    {
        let ghost before = command.deep_view();
        push_token(command, String::from_str(opts[i].name.name()));
        push_token(command, opts[i].value.clone());
        proof {
            let all = option_tokens(opts@);
            assert((2 * i) / 2 == i && (2 * i) % 2 == 0);
            assert((2 * i + 1) / 2 == i && (2 * i + 1) % 2 == 1);
            assert(all.take(2 * i + 2) =~= all.take(2 * i).push(all[2 * i]).push(all[2 * i + 1]));
            assert(command.deep_view() =~= old(command).deep_view() + all.take(2 * i + 2));
        }
        i = i + 1;
    }
    assert(option_tokens(opts@).take(2 * opts.len()) =~= option_tokens(opts@));
}

} // verus!
