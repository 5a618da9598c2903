//! Typed command encoding and reply decoding for the Tk listbox widget.
//!
//! A `TkListbox` turns each operation of the widget into the tokens of one
//! command for the toolkit, and says by the type of what it returns how the
//! toolkit's reply is read: as nothing, as text, as a list of elements, as a
//! number, as a list of numbers or as a truth value. Sending the tokens and
//! receiving the reply is left to the caller, and so is the splitting of a
//! list reply into its elements, which is the work of the toolkit's own list
//! reader.

pub mod decimal;
pub mod index;
pub mod listbox;
pub mod opt;
pub mod range;
pub mod reply;
pub mod request;
pub mod text;

pub use index::Index;
pub use listbox::TkListbox;
pub use opt::{OptPair, TkListboxItemOpt};
pub use range::TkRange;
pub use reply::{DecodeError, Error, InterpError};
pub use request::{BooleanQuery, Command, IntegerListQuery, IntegerQuery, ListQuery, TextQuery};
