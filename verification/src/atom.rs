//! Configuration predicates and the error for a line that is none.

use vstd::prelude::*;

verus! {

/// A configuration predicate.
#[derive(Debug, Clone, PartialEq, Eq, Hash)]
pub enum CfgAtom {
    /// A bare predicate, such as `unix`.
    Flag(String),
    /// A named predicate with a value, such as `target_os="linux"`. Several
    /// atoms may share a key.
    KeyValue { key: String, value: String },
}

/// The mathematical content of a [`CfgAtom`].
pub enum AtomView {
    Flag(Seq<char>),
    KeyValue { key: Seq<char>, value: Seq<char> },
}

impl View for CfgAtom {
    type V = AtomView;

    open spec fn view(&self) -> AtomView {
        match *self {
            CfgAtom::Flag(name) => AtomView::Flag(name@),
            CfgAtom::KeyValue { key, value } => AtomView::KeyValue { key: key@, value: value@ },
        }
    }
}

impl DeepView for CfgAtom {
    type V = AtomView;

    open spec fn deep_view(&self) -> AtomView {
        self@
    }
}

/// A line that is not a configuration predicate.
#[derive(Debug, Clone, PartialEq, Eq)]
pub struct ParseError {
    /// The offending line, as it was given.
    pub line: String,
}

impl View for ParseError {
    type V = Seq<char>;

    open spec fn view(&self) -> Seq<char> {
        self.line@
    }
}

impl DeepView for ParseError {
    type V = Seq<char>;

    open spec fn deep_view(&self) -> Seq<char> {
        self@
    }
}

impl ParseError {
    /// The text that [`ParseError::message`] puts before the line.
    pub open spec fn message_prefix() -> Seq<char> {
        "invalid cfg `"@
    }

    /// The text that [`ParseError::message`] puts after the line.
    pub open spec fn message_suffix() -> Seq<char> {
        "`: the value should be in quotes"@
    }

    /// A sentence for a log that names the offending line.
    pub fn message(&self) -> (text: String)
        ensures
            text@ == Self::message_prefix() + self@ + Self::message_suffix(),
    {
        let mut text = "invalid cfg `".to_owned();
        text.append(self.line.as_str());
        text.append("`: the value should be in quotes");
        text
    }
}

} // verus!
