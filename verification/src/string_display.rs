//! A table cell that shows a string.

use crate::html::Html;
use crate::table::TableItemDisplay;
use vstd::prelude::*;

verus! {

/// A string shown as it is.
pub struct StringDisplay {
    value: String,
}

impl StringDisplay {
    /// The string shown.
    pub closed spec fn text(&self) -> Seq<char> {
        self.value@
    }

    /// A cell that shows `value`.
    pub fn new(value: String) -> (cell: Self)
        ensures
            cell.text() == value@,
    {
        StringDisplay { value }
    }

    /// The string shown.
    pub fn value(&self) -> (value: &String)
        ensures
            value@ == self.text(),
    {
        &self.value
    }
}

impl TableItemDisplay for StringDisplay {
    fn render(&self) -> (node: Html)
        ensures
            node matches Html::Text(text) && text@ == self.text(),
    {
        Html::Text(self.value.clone())
    }
}

} // verus!
