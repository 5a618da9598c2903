use tk_listbox::decimal::{decimal_of_i64, decimal_of_u64};
use tk_listbox::{Index, OptPair, TkListbox, TkListboxItemOpt, TkRange};

fn words(tokens: &[String]) -> Vec<&str> {
    tokens.iter().map(|t| t.as_str()).collect()
}

fn lbox() -> TkListbox {
    TkListbox::new(".lbox")
}

#[test]
fn decimal_text_of_unsigned_numbers() {
    assert_eq!(decimal_of_u64(0), "0");
    assert_eq!(decimal_of_u64(7), "7");
    assert_eq!(decimal_of_u64(10), "10");
    assert_eq!(decimal_of_u64(1234567890), "1234567890");
    assert_eq!(decimal_of_u64(u64::MAX), "18446744073709551615");
}

#[test]
fn decimal_text_of_signed_numbers() {
    assert_eq!(decimal_of_i64(0), "0");
    assert_eq!(decimal_of_i64(-1), "-1");
    assert_eq!(decimal_of_i64(305), "305");
    assert_eq!(decimal_of_i64(i64::MAX), "9223372036854775807");
    assert_eq!(decimal_of_i64(i64::MIN), "-9223372036854775808");
}

#[test]
fn index_tokens() {
    assert_eq!(Index::Number(0).encode(), "0");
    assert_eq!(Index::Number(42).encode(), "42");
    assert_eq!(Index::Active.encode(), "active");
    assert_eq!(Index::Anchor.encode(), "anchor");
    assert_eq!(Index::End.encode(), "end");
    assert_eq!(Index::At(17).encode(), "@17");
    assert_eq!(Index::At(0).encode(), "@0");
}

#[test]
fn index_from_number() {
    assert_eq!(Index::from(3), Index::Number(3));
    let i: Index = 9.into();
    assert_eq!(i, Index::Number(9));
}

#[test]
fn index_defaults() {
    assert_eq!(Index::default_start(), Index::Number(0));
    assert_eq!(Index::default_end(), Index::End);
}

#[test]
fn distinct_indices_have_distinct_tokens() {
    let all = [
        Index::Number(0),
        Index::Number(1),
        Index::Number(10),
        Index::Active,
        Index::Anchor,
        Index::End,
        Index::At(0),
        Index::At(1),
    ];
    for (i, a) in all.iter().enumerate() {
        for (j, b) in all.iter().enumerate() {
            assert_eq!(a.encode() == b.encode(), i == j);
        }
    }
}

#[test]
fn range_shorthands() {
    assert_eq!(TkRange::from(..), TkRange { start: Index::Number(0), end: Index::End });
    assert_eq!(TkRange::from(6..), TkRange { start: Index::Number(6), end: Index::End });
    assert_eq!(TkRange::from(..=1), TkRange { start: Index::Number(0), end: Index::Number(1) });
    assert_eq!(TkRange::from(1..=2), TkRange { start: Index::Number(1), end: Index::Number(2) });
}

#[test]
fn range_bounds_are_not_swapped() {
    let r = TkRange::from(3..=8);
    assert_eq!(r.start, Index::Number(3));
    assert_eq!(r.end, Index::Number(8));
    let r = TkRange::from(8..=3);
    assert_eq!(r.start, Index::Number(8));
    assert_eq!(r.end, Index::Number(3));
}

#[test]
fn shorthands_for_one_span_give_the_same_tokens() {
    let l = lbox();
    assert_eq!(l.get_range(TkRange::from(..)).tokens, l.get_range(TkRange::from(0..)).tokens);
    assert_eq!(l.get_range(TkRange::from(..=2)).tokens, l.get_range(TkRange::from(0..=2)).tokens);
    assert_eq!(words(&l.get_range(TkRange::from(..)).tokens), [".lbox", "get", "0", "end"]);
    assert_eq!(words(&l.get_range(TkRange::from(..=2)).tokens), [".lbox", "get", "0", "2"]);
    assert_eq!(
        l.delete_range(TkRange::from(..)).tokens,
        l.delete_range(TkRange::from(0..)).tokens
    );
    assert_eq!(
        l.selection_set_range(TkRange::from(..=5)).tokens,
        l.selection_set_range(TkRange::from(0..=5)).tokens
    );
    assert_eq!(
        l.selection_clear_range(TkRange::from(..=5)).tokens,
        l.selection_clear_range(TkRange::from(0..=5)).tokens
    );
}

#[test]
fn new_keeps_the_path() {
    assert_eq!(TkListbox::new(".a.b").path, ".a.b");
    assert_eq!(words(&TkListbox::new(".a.b").size().tokens), [".a.b", "size"]);
}

#[test]
fn commands_with_one_index() {
    let l = lbox();
    assert_eq!(words(&l.active(Index::Number(2)).tokens), [".lbox", "active", "2"]);
    assert_eq!(words(&l.delete(Index::Number(1)).tokens), [".lbox", "delete", "1"]);
    assert_eq!(words(&l.get(Index::End).tokens), [".lbox", "get", "end"]);
    assert_eq!(words(&l.index(Index::Active).tokens), [".lbox", "index", "active"]);
    assert_eq!(words(&l.see(Index::Anchor).tokens), [".lbox", "see", "anchor"]);
    assert_eq!(words(&l.bbox(Index::Number(0)).tokens), [".lbox", "bbox", "0"]);
    assert_eq!(words(&l.xview_index(Index::Number(4)).tokens), [".lbox", "xview", "4"]);
    assert_eq!(words(&l.yview_index(Index::At(30)).tokens), [".lbox", "yview", "@30"]);
}

#[test]
fn selection_commands() {
    let l = lbox();
    assert_eq!(
        words(&l.selection_anchor(Index::Number(3)).tokens),
        [".lbox", "selection", "anchor", "3"]
    );
    assert_eq!(
        words(&l.selection_clear(Index::End).tokens),
        [".lbox", "selection", "clear", "end"]
    );
    assert_eq!(
        words(&l.selection_clear_range(TkRange::from(1..=4)).tokens),
        [".lbox", "selection", "clear", "1", "4"]
    );
    assert_eq!(
        words(&l.selection_includes(Index::Number(7)).tokens),
        [".lbox", "selection", "includes", "7"]
    );
    assert_eq!(
        words(&l.selection_set(Index::Active).tokens),
        [".lbox", "selection", "set", "active"]
    );
    assert_eq!(
        words(&l.selection_set_range(TkRange::from(2..)).tokens),
        [".lbox", "selection", "set", "2", "end"]
    );
}

#[test]
fn commands_without_arguments() {
    let l = lbox();
    assert_eq!(words(&l.curselection().tokens), [".lbox", "curselection"]);
    assert_eq!(words(&l.size().tokens), [".lbox", "size"]);
}

#[test]
fn delete_commands_of_each_form() {
    let l = lbox();
    assert_eq!(words(&l.delete(Index::Number(1)).tokens), [".lbox", "delete", "1"]);
    assert_eq!(
        words(&l.delete_range(TkRange::from(1..=1)).tokens),
        [".lbox", "delete", "1", "1"]
    );
    assert_eq!(
        words(&l.delete_range(TkRange::from(6..)).tokens),
        [".lbox", "delete", "6", "end"]
    );
    assert_eq!(
        words(&l.delete_range(TkRange::from(..=1)).tokens),
        [".lbox", "delete", "0", "1"]
    );
    assert_eq!(
        words(&l.delete_range(TkRange::from(1..=2)).tokens),
        [".lbox", "delete", "1", "2"]
    );
    assert_eq!(words(&l.delete_range(TkRange::from(..)).tokens), [".lbox", "delete", "0", "end"]);
}

#[test]
fn range_of_markers() {
    let l = lbox();
    let r = TkRange { start: Index::Anchor, end: Index::Active };
    assert_eq!(words(&l.get_range(r).tokens), [".lbox", "get", "anchor", "active"]);
}

#[test]
fn insert_keeps_the_order_of_the_elements() {
    let l = lbox();
    let elements = vec!["gamma".to_string(), "alpha".to_string(), "beta".to_string()];
    let c = l.insert(Index::Number(2), elements.clone());
    assert_eq!(words(&c.tokens), [".lbox", "insert", "2", "gamma", "alpha", "beta"]);
    let c = l.insert_end(elements.clone());
    assert_eq!(words(&c.tokens), [".lbox", "insert", "end", "gamma", "alpha", "beta"]);
    assert_eq!(c.tokens[3..], elements[..]);
}

#[test]
fn insert_of_nothing() {
    let l = lbox();
    assert_eq!(words(&l.insert_end(Vec::new()).tokens), [".lbox", "insert", "end"]);
    assert_eq!(words(&l.insert(Index::End, Vec::new()).tokens), [".lbox", "insert", "end"]);
}

#[test]
fn an_element_is_one_token_whatever_it_holds() {
    let l = lbox();
    let c = l.insert_end(vec!["hello world".to_string(), String::new(), "{".to_string()]);
    assert_eq!(c.tokens.len(), 6);
    assert_eq!(c.tokens[3], "hello world");
    assert_eq!(c.tokens[4], "");
    assert_eq!(c.tokens[5], "{");
}

#[test]
fn option_names() {
    assert_eq!(TkListboxItemOpt::Background.name(), "-background");
    assert_eq!(TkListboxItemOpt::Foreground.name(), "-foreground");
    assert_eq!(TkListboxItemOpt::SelectBackground.name(), "-selectbackground");
    assert_eq!(TkListboxItemOpt::SelectForeground.name(), "-selectforeground");
}

#[test]
fn itemcget_command() {
    let l = lbox();
    assert_eq!(
        words(&l.itemcget(Index::Number(1), TkListboxItemOpt::Foreground).tokens),
        [".lbox", "itemcget", "1", "-foreground"]
    );
}

#[test]
fn itemconfigure_command() {
    let l = lbox();
    let opts = vec![
        OptPair { name: TkListboxItemOpt::Background, value: "red".to_string() },
        OptPair { name: TkListboxItemOpt::SelectForeground, value: "#00ff00".to_string() },
        OptPair { name: TkListboxItemOpt::Foreground, value: "light blue".to_string() },
    ];
    assert_eq!(
        words(&l.itemconfigure(Index::End, &opts).tokens),
        [
            ".lbox",
            "itemconfigure",
            "end",
            "-background",
            "red",
            "-selectforeground",
            "#00ff00",
            "-foreground",
            "light blue"
        ]
    );
    assert_eq!(
        words(&l.itemconfigure(Index::Number(0), &Vec::new()).tokens),
        [".lbox", "itemconfigure", "0"]
    );
}

#[test]
fn pixel_coordinates() {
    let l = lbox();
    assert_eq!(words(&l.nearest(25).tokens), [".lbox", "nearest", "25"]);
    assert_eq!(words(&l.nearest(-3).tokens), [".lbox", "nearest", "-3"]);
    assert_eq!(words(&l.scan_mark(10, 20).tokens), [".lbox", "scan", "mark", "10", "20"]);
    assert_eq!(words(&l.scan_dragto(-5, 0).tokens), [".lbox", "scan", "dragto", "-5", "0"]);
}
