//! Text as contracts see it: a string is the sequence of its characters.

use vstd::prelude::*;

verus! {

/// The mathematical value of a string.
pub type Text = Seq<char>;

/// The value of an optional string.
pub open spec fn opt_text(value: Option<String>) -> Option<Text> {
    match value {
        Some(s) => Some(s@),
        None => None,
    }
}

/// The value of an optional list of strings.
pub open spec fn opt_texts(value: Option<Vec<String>>) -> Option<Seq<Text>> {
    match value {
        Some(list) => Some(list.deep_view()),
        None => None,
    }
}

/// The value of an optional machine-sized count.
pub open spec fn opt_nat(value: Option<usize>) -> Option<nat> {
    match value {
        Some(n) => Some(n as nat),
        None => None,
    }
}

} // verus!
