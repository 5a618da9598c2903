//! The listbox widget: one method for each of its subcommands.

use crate::decimal::{decimal, decimal_of_i64};
use crate::index::Index;
use crate::opt::{append_opts, option_tokens, OptPair, TkListboxItemOpt};
use crate::range::TkRange;
use crate::request::{
    push_token, BooleanQuery, Command, IntegerListQuery, IntegerQuery, ListQuery, TextQuery,
};
use vstd::prelude::*;
use vstd::string::StringExecFns;

verus! {

/// A listbox, known by its path in the toolkit's hierarchy of widgets.
///
/// Each method builds the command for one subcommand of the widget: the
/// path, the subcommand and the arguments, one token each. Nothing is
/// checked beyond what the types of the arguments rule out; the toolkit
/// judges the rest when it runs the command.
#[derive(Clone, Debug, PartialEq, Eq)]
pub struct TkListbox {
    /// The widget's path.
    pub path: String,
}

/// Appends to `command` every token of `more`, in order.
fn append_tokens(command: &mut Vec<String>, more: Vec<String>)
    ensures
        final(command).deep_view() == old(command).deep_view() + more.deep_view(),
{
    let mut rest = more;
    command.append(&mut rest);
    assert(command.deep_view() =~= old(command).deep_view() + more.deep_view());
}

/// Appends to `command` the two tokens that stand for `range`.
fn append_range(command: &mut Vec<String>, range: TkRange)
    ensures
        final(command).deep_view() == old(command).deep_view() + range.tokens(),
{
    push_token(command, range.start.encode());
    push_token(command, range.end.encode());
    assert(command.deep_view() =~= old(command).deep_view() + range.tokens());
}

impl TkListbox {
    /// The listbox at `path`.
    pub fn new(path: &str) -> (r: TkListbox)
        ensures
            r.path@ == path@,
    {
        TkListbox { path: String::from_str(path) }
    }

    /// The first two tokens of every command: the path and the subcommand.
    fn begin(&self, subcommand: &str) -> (r: Vec<String>)
        ensures
            r.deep_view() == seq![self.path@, subcommand@],
    {
        let mut tokens: Vec<String> = Vec::new();
        assert(tokens.deep_view() =~= Seq::<Seq<char>>::empty());
        push_token(&mut tokens, self.path.clone());
        push_token(&mut tokens, String::from_str(subcommand));
        assert(tokens.deep_view() =~= seq![self.path@, subcommand@]);
        tokens
    }

    /// Sets the active element to the one at `index`.
    pub fn active(&self, index: Index) -> (r: Command)
        ensures
            r.tokens.deep_view() == seq![self.path@, "active"@, index.token()],
    {
        let mut tokens = self.begin("active");
        push_token(&mut tokens, index.encode());
        Command { tokens }
    }

    /// Asks for the numbers of the selected elements.
    pub fn curselection(&self) -> (r: IntegerListQuery)
        ensures
            r.tokens.deep_view() == seq![self.path@, "curselection"@],
    {
        IntegerListQuery { tokens: self.begin("curselection") }
    }

    /// Deletes the element at `index`.
    pub fn delete(&self, index: Index) -> (r: Command)
        ensures
            r.tokens.deep_view() == seq![self.path@, "delete"@, index.token()],
    {
        let mut tokens = self.begin("delete");
        push_token(&mut tokens, index.encode());
        Command { tokens }
    }

    /// Deletes the elements of `range`.
    pub fn delete_range(&self, range: TkRange) -> (r: Command)
        ensures
            r.tokens.deep_view() == seq![self.path@, "delete"@] + range.tokens(),
    {
        let mut tokens = self.begin("delete");
        append_range(&mut tokens, range);
        Command { tokens }
    }

    /// Asks for the contents of the element at `index`. The toolkit replies
    /// with an empty text where there is no such element, and that reply is a
    /// value like any other.
    pub fn get(&self, index: Index) -> (r: TextQuery)
        ensures
            r.tokens.deep_view() == seq![self.path@, "get"@, index.token()],
    {
        let mut tokens = self.begin("get");
        push_token(&mut tokens, index.encode());
        TextQuery { tokens }
    }

    /// Asks for the contents of the elements of `range`.
    pub fn get_range(&self, range: TkRange) -> (r: ListQuery)
        ensures
            r.tokens.deep_view() == seq![self.path@, "get"@] + range.tokens(),
    {
        let mut tokens = self.begin("get");
        append_range(&mut tokens, range);
        ListQuery { tokens }
    }

    /// Asks for the number of the element that `index` names.
    pub fn index(&self, index: Index) -> (r: IntegerQuery)
        ensures
            r.tokens.deep_view() == seq![self.path@, "index"@, index.token()],
    {
        let mut tokens = self.begin("index");
        push_token(&mut tokens, index.encode());
        IntegerQuery { tokens }
    }

    /// Inserts `elements`, in their order, just before the element at
    /// `index`.
    pub fn insert(&self, index: Index, elements: Vec<String>) -> (r: Command)
        ensures
            r.tokens.deep_view() == seq![self.path@, "insert"@, index.token()]
                + elements.deep_view(),
    {
        let mut tokens = self.begin("insert");
        push_token(&mut tokens, index.encode());
        append_tokens(&mut tokens, elements);
        Command { tokens }
    }

    /// Appends `elements`, in their order, to the end of the list.
    pub fn insert_end(&self, elements: Vec<String>) -> (r: Command)
        ensures
            r.tokens.deep_view() == seq![self.path@, "insert"@, "end"@] + elements.deep_view(),
            r.tokens.deep_view().skip(3) == elements.deep_view(),
    {
        let mut tokens = self.begin("insert");
        push_token(&mut tokens, String::from_str("end"));
        append_tokens(&mut tokens, elements);
        assert(tokens.deep_view().skip(3) =~= elements.deep_view());
        Command { tokens }
    }

    /// Asks for the value of the option `name` of the element at `index`.
    /// The reply is handed out as it is, for the caller to read.
    pub fn itemcget(&self, index: Index, name: TkListboxItemOpt) -> (r: TextQuery)
        ensures
            r.tokens.deep_view() == seq![self.path@, "itemcget"@, index.token(), name.token()],
    {
        let mut tokens = self.begin("itemcget");
        push_token(&mut tokens, index.encode());
        push_token(&mut tokens, String::from_str(name.name()));
        TextQuery { tokens }
    }

    /// Gives the options `opts` of the element at `index` their values.
    pub fn itemconfigure(&self, index: Index, opts: &Vec<OptPair>) -> (r: Command)
        ensures
            r.tokens.deep_view() == seq![self.path@, "itemconfigure"@, index.token()]
                + option_tokens(opts@),
    {
        let mut tokens = self.begin("itemconfigure");
        push_token(&mut tokens, index.encode());
        append_opts(&mut tokens, opts);
        Command { tokens }
    }

    /// Asks for the number of the visible element nearest to the pixel
    /// coordinate `y`.
    pub fn nearest(&self, y: i64) -> (r: IntegerQuery)
        ensures
            r.tokens.deep_view() == seq![self.path@, "nearest"@, decimal(y as int)],
    {
        let mut tokens = self.begin("nearest");
        push_token(&mut tokens, decimal_of_i64(y));
        IntegerQuery { tokens }
    }

    /// Records the pixel coordinates `x` and `y` and the current view, for
    /// later calls of `scan_dragto`.
    pub fn scan_mark(&self, x: i64, y: i64) -> (r: Command)
        ensures
            r.tokens.deep_view() == seq![
                self.path@,
                "scan"@,
                "mark"@,
                decimal(x as int),
                decimal(y as int),
            ],
    {
        let mut tokens = self.begin("scan");
        push_token(&mut tokens, String::from_str("mark"));
        push_token(&mut tokens, decimal_of_i64(x));
        push_token(&mut tokens, decimal_of_i64(y));
        Command { tokens }
    }

    /// Scrolls the list by the distance between the pixel coordinates `x` and
    /// `y` and those of the last `scan_mark`.
    pub fn scan_dragto(&self, x: i64, y: i64) -> (r: Command)
        ensures
            r.tokens.deep_view() == seq![
                self.path@,
                "scan"@,
                "dragto"@,
                decimal(x as int),
                decimal(y as int),
            ],
    {
        let mut tokens = self.begin("scan");
        push_token(&mut tokens, String::from_str("dragto"));
        push_token(&mut tokens, decimal_of_i64(x));
        push_token(&mut tokens, decimal_of_i64(y));
        Command { tokens }
    }

    /// Scrolls the list so that the element at `index` is visible.
    pub fn see(&self, index: Index) -> (r: Command)
        ensures
            r.tokens.deep_view() == seq![self.path@, "see"@, index.token()],
    {
        let mut tokens = self.begin("see");
        push_token(&mut tokens, index.encode());
        Command { tokens }
    }

    /// Sets the selection anchor to the element at `index`.
    pub fn selection_anchor(&self, index: Index) -> (r: Command)
        ensures
            r.tokens.deep_view() == seq![self.path@, "selection"@, "anchor"@, index.token()],
    {
        let mut tokens = self.begin("selection");
        push_token(&mut tokens, String::from_str("anchor"));
        push_token(&mut tokens, index.encode());
        Command { tokens }
    }

    /// Takes the element at `index` out of the selection.
    pub fn selection_clear(&self, index: Index) -> (r: Command)
        ensures
            r.tokens.deep_view() == seq![self.path@, "selection"@, "clear"@, index.token()],
    {
        let mut tokens = self.begin("selection");
        push_token(&mut tokens, String::from_str("clear"));
        push_token(&mut tokens, index.encode());
        Command { tokens }
    }

    /// Takes the elements of `range` out of the selection.
    pub fn selection_clear_range(&self, range: TkRange) -> (r: Command)
        ensures
            r.tokens.deep_view() == seq![self.path@, "selection"@, "clear"@] + range.tokens(),
    {
        let mut tokens = self.begin("selection");
        push_token(&mut tokens, String::from_str("clear"));
        append_range(&mut tokens, range);
        Command { tokens }
    }

    /// Asks whether the element at `index` is selected.
    pub fn selection_includes(&self, index: Index) -> (r: BooleanQuery)
        ensures
            r.tokens.deep_view() == seq![self.path@, "selection"@, "includes"@, index.token()],
    {
        let mut tokens = self.begin("selection");
        push_token(&mut tokens, String::from_str("includes"));
        push_token(&mut tokens, index.encode());
        BooleanQuery { tokens }
    }

    /// Adds the element at `index` to the selection.
    pub fn selection_set(&self, index: Index) -> (r: Command)
        ensures
            r.tokens.deep_view() == seq![self.path@, "selection"@, "set"@, index.token()],
    {
        let mut tokens = self.begin("selection");
        push_token(&mut tokens, String::from_str("set"));
        push_token(&mut tokens, index.encode());
        Command { tokens }
    }

    /// Adds the elements of `range` to the selection.
    pub fn selection_set_range(&self, range: TkRange) -> (r: Command)
        ensures
            r.tokens.deep_view() == seq![self.path@, "selection"@, "set"@] + range.tokens(),
    {
        let mut tokens = self.begin("selection");
        push_token(&mut tokens, String::from_str("set"));
        append_range(&mut tokens, range);
        Command { tokens }
    }

    /// Asks for the number of elements in the list.
    pub fn size(&self) -> (r: IntegerQuery)
        ensures
            r.tokens.deep_view() == seq![self.path@, "size"@],
    {
        IntegerQuery { tokens: self.begin("size") }
    }

    /// Asks for the bounding box of the text of the element at `index`: its
    /// position and its size in pixels, four numbers, or none where the
    /// element is not visible.
    pub fn bbox(&self, index: Index) -> (r: IntegerListQuery)
        ensures
            r.tokens.deep_view() == seq![self.path@, "bbox"@, index.token()],
    {
        let mut tokens = self.begin("bbox");
        push_token(&mut tokens, index.encode());
        IntegerListQuery { tokens }
    }

    /// Scrolls the list sideways so that the position `index` stands at the
    /// left edge of the window.
    pub fn xview_index(&self, index: Index) -> (r: Command)
        ensures
            r.tokens.deep_view() == seq![self.path@, "xview"@, index.token()],
    {
        let mut tokens = self.begin("xview");
        push_token(&mut tokens, index.encode());
        Command { tokens }
    }

    /// Scrolls the list so that the element at `index` stands at the top of
    /// the window.
    pub fn yview_index(&self, index: Index) -> (r: Command)
        ensures
            r.tokens.deep_view() == seq![self.path@, "yview"@, index.token()],
    {
        let mut tokens = self.begin("yview");
        push_token(&mut tokens, index.encode());
        Command { tokens }
    }
}

} // verus!
