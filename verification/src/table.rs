//! The table: one heading row and one row of cells for each item of its
//! content.

use crate::html::{Html, Tag};
use std::rc::Rc;
use vstd::prelude::*;

verus! {

/// What a row of a table must offer: the headings of its columns and its
/// cells.
pub trait TableBlocks: PartialEq + Clone + 'static {
    fn headers() -> Vec<String>;

    fn fields(&self) -> Vec<Box<dyn TableItemDisplay>>;
}

/// What a cell of a table must offer: a rendering.
pub trait TableItemDisplay {
    fn render(&self) -> Html;
}

/// What can happen to the table.
pub enum Msg<T> {
    /// New content arrives.
    Update(Rc<Vec<T>>),
}

/// What the host configures: the rows to show.
pub struct Props<T: TableBlocks> {
    pub content: Vec<T>,
}

/// The table's state.
pub struct Table<T: TableBlocks> {
    content: Vec<T>,
}

/// `copy` holds a clone of each item of `source`, in order.
pub open spec fn is_copy<T: Clone>(source: Seq<T>, copy: Seq<T>) -> bool {
    &&& copy.len() == source.len()
    &&& forall|i: int| 0 <= i < source.len() ==> cloned::<T>(source[i], #[trigger] copy[i])
}

/// `node` is a heading cell that reads `heading`.
pub open spec fn is_heading_cell(heading: String, node: Html) -> bool {
    &&& node matches Html::Element { tag, class, on_click, children }
    &&& tag == Tag::Th
    &&& class is None
    &&& on_click is None
    &&& children@.len() == 1
    &&& children@[0] matches Html::Text(text)
    &&& text@ == heading@
}

/// `node` is the heading row for `headers`: one heading cell for each, in
/// order.
pub open spec fn is_heading_row(headers: Seq<String>, node: Html) -> bool {
    &&& node matches Html::Element { tag, class, on_click, children }
    &&& tag == Tag::Tr
    &&& class is None
    &&& on_click is None
    &&& children@.len() == headers.len()
    &&& forall|i: int|
        0 <= i < headers.len() ==> is_heading_cell(headers[i], #[trigger] children@[i])
}

/// `node` is a cell that holds one rendering.
pub open spec fn is_cell(node: Html) -> bool {
    &&& node matches Html::Element { tag, class, on_click, children }
    &&& tag == Tag::Td
    &&& class is None
    &&& on_click is None
    &&& children@.len() == 1
}

/// `node` is a row of `width` cells.
pub open spec fn is_row(width: nat, node: Html) -> bool {
    &&& node matches Html::Element { tag, class, on_click, children }
    &&& tag == Tag::Tr
    &&& class is None
    &&& on_click is None
    &&& children@.len() == width
    &&& forall|i: int| 0 <= i < width ==> is_cell(#[trigger] children@[i])
}

/// The heading row for `headers`.
pub fn heading_row(headers: Vec<String>) -> (node: Html)
    ensures
        is_heading_row(headers@, node),
{
    let mut cells: Vec<Html> = Vec::new();
    let mut i: usize = 0;
    while i < headers.len()
        invariant
            i <= headers.len(),
            cells@.len() == i,
            forall|k: int| 0 <= k < i ==> is_heading_cell(headers@[k], #[trigger] cells@[k]),
        decreases headers.len() - i,
    {
        let mut text: Vec<Html> = Vec::new();
        text.push(Html::Text(headers[i].clone()));
        cells.push(Html::element(Tag::Th, None, text));
        i += 1;
    }
    Html::element(Tag::Tr, None, cells)
}

/// The row that shows `fields`: one cell for each, in order, holding what
/// the field renders.
pub fn row(fields: Vec<Box<dyn TableItemDisplay>>) -> (node: Html)
    ensures
        is_row(fields@.len(), node),
{
    let mut cells: Vec<Html> = Vec::new();
    let mut i: usize = 0;
    while i < fields.len()
        invariant
            i <= fields.len(),
            cells@.len() == i,
            forall|k: int| 0 <= k < i ==> is_cell(#[trigger] cells@[k]),
        decreases fields.len() - i,
    {
        let mut content: Vec<Html> = Vec::new();
        content.push(fields[i].render());
        cells.push(Html::element(Tag::Td, None, content));
        i += 1;
    }
    Html::element(Tag::Tr, None, cells)
}

impl<T: TableBlocks> Table<T> {
    /// The rows shown.
    pub closed spec fn content(&self) -> Seq<T> {
        self.content@
    }

    /// `node` is the row for item `i` of the content: as many cells as the
    /// item has fields.
    pub open spec fn is_content_row(&self, i: int, node: Html) -> bool {
        exists|fields: Vec<Box<dyn TableItemDisplay>>|
            #[trigger] call_ensures(T::fields, (&self.content()[i],), fields) && is_row(
                fields@.len(),
                node,
            )
    }

    /// `node` is the head of the table: the heading row for the headings that
    /// the row type names.
    pub open spec fn is_head(node: Html) -> bool {
        &&& node matches Html::Element { tag, class, on_click, children }
        &&& tag == Tag::Thead
        &&& class is None
        &&& on_click is None
        &&& children@.len() == 1
        &&& exists|headers: Vec<String>|
            #[trigger] call_ensures(T::headers, (), headers) && is_heading_row(
                headers@,
                children@[0],
            )
    }

    /// `node` is the body of the table: one row for each item of the content,
    /// in order.
    pub open spec fn is_body(&self, node: Html) -> bool {
        &&& node matches Html::Element { tag, class, on_click, children }
        &&& tag == Tag::Tbody
        &&& class is None
        &&& on_click is None
        &&& children@.len() == self.content().len()
        &&& forall|i: int|
            0 <= i < self.content().len() ==> self.is_content_row(i, #[trigger] children@[i])
    }

    /// `node` is the rendering of the table: its head, then its body.
    pub open spec fn is_view(&self, node: Html) -> bool {
        &&& node matches Html::Element { tag, class, on_click, children }
        &&& tag == Tag::Table
        &&& class is None
        &&& on_click is None
        &&& children@.len() == 2
        &&& Self::is_head(children@[0])
        &&& self.is_body(children@[1])
    }

    /// A table over a copy of the host's rows.
    pub fn create(props: &Props<T>) -> (state: Self)
        ensures
            is_copy(props.content@, state.content()),
    {
        Table { content: props.content.clone() }
    }

    /// Replaces the rows by a copy of the new content.
    pub fn update(&mut self, msg: Msg<T>)
        ensures
            msg matches Msg::Update(rows) && is_copy(rows@, final(self).content()),
    {
        match msg {
            Msg::Update(update_content) => {
                self.content = (*update_content).clone();
            },
        }
    }

    /// Replaces the rows by a copy of the host's new rows.
    pub fn changed(&mut self, props: &Props<T>)
        ensures
            is_copy(props.content@, final(self).content()),
    {
        self.content = props.content.clone();
    }

    /// The rendering of the table.
    pub fn view(&self) -> (node: Html)
        ensures
            self.is_view(node),
    {
        let headers = T::headers();
        let ghost named = headers;
        let heading = heading_row(headers);
        let mut head_rows: Vec<Html> = Vec::new();
        head_rows.push(heading);
        let head = Html::element(Tag::Thead, None, head_rows);
        assert(call_ensures(T::headers, (), named) && is_heading_row(named@, heading));
        assert(Self::is_head(head));
        let mut rows: Vec<Html> = Vec::new();
        let mut i: usize = 0;
        while i < self.content.len()
            invariant
                i <= self.content().len(),
                rows@.len() == i,
                forall|k: int| 0 <= k < i ==> self.is_content_row(k, #[trigger] rows@[k]),
            decreases self.content().len() - i,
        {
            let fields = self.content[i].fields();
            let ghost given = fields;
            let shown = row(fields);
            assert(call_ensures(T::fields, (&self.content()[i as int],), given) && is_row(
                given@.len(),
                shown,
            ));
            rows.push(shown);
            i += 1;
        }
        let body = Html::element(Tag::Tbody, None, rows);
        assert(self.is_body(body));
        let mut children: Vec<Html> = Vec::new();
        children.push(head);
        children.push(body);
        Html::element(Tag::Table, None, children)
    }

    /// The rows shown.
    pub fn rows(&self) -> (rows: &Vec<T>)
        ensures
            rows@ == self.content(),
    {
        &self.content
    }
}

} // verus!
