//! A small render tree: what a widget hands to the host's rendering pipeline.

use vstd::prelude::*;

verus! {

/// The element kinds the widgets emit.
#[derive(Clone, Copy, Debug, PartialEq, Eq, Structural)]
pub enum Tag {
    Div,
    Button,
    Table,
    Thead,
    Tbody,
    Tr,
    Th,
    Td,
}

/// What a click on an element stands for: the trigger of the widget, or the
/// option at a position of the option list.
#[derive(Clone, Copy, Debug, PartialEq, Eq, Structural)]
pub enum Click {
    Trigger,
    Item(usize),
}

/// A node of the render tree.
#[derive(Debug, PartialEq)]
pub enum Html {
    /// Nothing is rendered.
    Empty,
    /// A run of text.
    Text(String),
    /// An element with an optional class attribute, an optional click target
    /// and its children in order.
    Element { tag: Tag, class: Option<&'static str>, on_click: Option<Click>, children: Vec<Html> },
}

impl Html {
    /// An element without a click target.
    pub fn element(tag: Tag, class: Option<&'static str>, children: Vec<Html>) -> (node: Html)
        ensures
            node == (Html::Element { tag, class, on_click: None, children }),
    {
        Html::Element { tag, class, on_click: None, children }
    }
}

} // verus!
