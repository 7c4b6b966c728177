//! The multi-select dropdown: an option list, the selection made from it, an
//! optional ceiling on the number of selected items, and an open/closed flag.

use crate::html::{Click, Html, Tag};
use crate::selection::{
    distinct, holds, reconciled, share_all, toggled, within, SelectionSet,
};
use std::rc::Rc;
use vstd::prelude::*;
use vstd::std_specs::cmp::PartialEqSpec;

verus! {

/// Arranges rendered items in one container.
pub trait Layout {
    fn layout(items: Vec<Html>) -> Html;
}

/// Stacks the items in a container of class `list`.
pub struct ListLayout;

impl Layout for ListLayout {
    fn layout(items: Vec<Html>) -> (container: Html)
        ensures
            container == (Html::Element {
                tag: Tag::Div,
                class: Some("list"),
                on_click: None,
                children: items,
            }),
    {
        Html::element(Tag::Div, Some("list"), items)
    }
}

/// Places the items in a container of class `grid`.
pub struct GridLayout;

impl Layout for GridLayout {
    fn layout(items: Vec<Html>) -> (container: Html)
        ensures
            container == (Html::Element {
                tag: Tag::Div,
                class: Some("grid"),
                on_click: None,
                children: items,
            }),
    {
        Html::element(Tag::Div, Some("grid"), items)
    }
}

/// What an item of a multi-select dropdown must offer: value equality, cheap
/// duplication, a rendering, and the layout its dropdown arranges items with.
pub trait MultiSelectDropdownItemDisplay: PartialEq + Clone + 'static {
    type Layout: Layout;

    fn render(&self) -> Html;
}

/// What the host configures: the options on offer and the ceiling on the
/// number of selected items (`None`: unbounded).
pub struct Props<T: MultiSelectDropdownItemDisplay> {
    pub options: Vec<Rc<T>>,
    pub max_selections: Option<usize>,
}

/// What the user can do to the dropdown.
pub enum Msg<T> {
    /// A click on a rendered item.
    MultiItemToggle(Rc<T>),
    /// A click on the trigger button.
    ToggleMultiDropdown,
}

/// The dropdown's state.
pub struct MultiSelectDropdown<T: MultiSelectDropdownItemDisplay> {
    options: Vec<Rc<T>>,
    selected_options: SelectionSet<T>,
    max_selections: Option<usize>,
    is_open: bool,
}

/// The class of a rendered item.
pub open spec fn item_class(selected: bool) -> &'static str {
    if selected {
        "item selected"
    } else {
        "item"
    }
}

/// The text on the trigger button.
pub open spec fn trigger_label(open: bool) -> &'static str {
    if open {
        "Close"
    } else {
        "Open"
    }
}

/// `node` is the trigger button of a dropdown that is open or closed.
pub open spec fn is_trigger(open: bool, node: Html) -> bool {
    &&& node matches Html::Element { tag, class, on_click, children }
    &&& tag == Tag::Button
    &&& class is None
    &&& on_click == Some(Click::Trigger)
    &&& children@.len() == 1
    &&& children@[0] matches Html::Text(label)
    &&& label@ == trigger_label(open)@
}

/// `container` is what the layout `L` makes of `items`.
pub open spec fn arranged<L: Layout>(items: Vec<Html>, container: Html) -> bool {
    call_ensures(L::layout, (items,), container)
}

impl<T: MultiSelectDropdownItemDisplay> MultiSelectDropdown<T> {
    /// The options on offer, in display order.
    pub closed spec fn options(&self) -> Seq<Rc<T>> {
        self.options@
    }

    /// The selected items, oldest selection first.
    pub closed spec fn selection(&self) -> Seq<Rc<T>> {
        self.selected_options@
    }

    /// The ceiling on the number of selected items.
    pub closed spec fn ceiling(&self) -> Option<usize> {
        self.max_selections
    }

    /// Whether the option list is shown.
    pub closed spec fn open(&self) -> bool {
        self.is_open
    }

    /// No two selected items are equal.
    pub open spec fn wf(&self) -> bool {
        distinct(self.selection())
    }

    /// The selection respects the ceiling.
    pub open spec fn within_ceiling(&self) -> bool {
        within(self.selection().len(), self.ceiling())
    }

    /// `node` is the rendering of option `i`: a clickable container that
    /// carries the item's own rendering and is tagged as selected exactly when
    /// an equal item is selected.
    pub open spec fn is_item(&self, i: int, node: Html) -> bool {
        &&& node matches Html::Element { tag, class, on_click, children }
        &&& tag == Tag::Div
        &&& class == Some(item_class(holds(self.selection(), self.options()[i])))
        &&& on_click == Some(Click::Item(i as usize))
        &&& children@.len() == 1
        &&& call_ensures(T::render, (&*self.options()[i],), children@[0])
    }

    /// `items` are the renderings of all options, in display order.
    pub open spec fn is_items(&self, items: Seq<Html>) -> bool {
        &&& items.len() == self.options().len()
        &&& forall|i: int| 0 <= i < items.len() ==> self.is_item(i, #[trigger] items[i])
    }

    /// `node` is the rendering of the dropdown: the trigger button, followed
    /// by nothing while closed and by the laid-out items while open.
    pub open spec fn is_view(&self, node: Html) -> bool {
        &&& node matches Html::Element { tag, class, on_click, children }
        &&& tag == Tag::Div
        &&& class == Some("multiselect-dropdown")
        &&& on_click is None
        &&& children@.len() == 2
        &&& is_trigger(self.open(), children@[0])
        &&& if self.open() {
            exists|items: Vec<Html>|
                self.is_items(items@) && #[trigger] arranged::<T::Layout>(items, children@[1])
        } else {
            children@[1] == Html::Empty
        }
    }

    /// A closed dropdown over the host's options, with nothing selected.
    pub fn create(props: &Props<T>) -> (state: Self)
        ensures
            state.options() == props.options@,
            state.selection() == Seq::<Rc<T>>::empty(),
            state.ceiling() == props.max_selections,
            !state.open(),
            state.wf(),
            state.within_ceiling(),
    {
        MultiSelectDropdown {
            options: share_all(&props.options),
            selected_options: SelectionSet::new(),
            max_selections: props.max_selections,
            is_open: false,
        }
    }

    /// Takes over the host's new options and ceiling, and drops every
    /// selected item that equals none of the new options. Nothing else leaves
    /// the selection: under a new ceiling below the number of items that stay
    /// selected, the selection exceeds the ceiling until items are deselected.
    pub fn changed(&mut self, props: &Props<T>)
        ensures
            final(self).options() == props.options@,
            final(self).ceiling() == props.max_selections,
            T::obeys_eq_spec() ==> final(self).selection() == reconciled(
                old(self).selection(),
                props.options@,
            ),
            final(self).selection().len() <= old(self).selection().len(),
            final(self).open() == old(self).open(),
            T::obeys_eq_spec() && old(self).wf() ==> final(self).wf(),
            within(old(self).selection().len(), props.max_selections)
                ==> final(self).within_ceiling(),
    {
        self.options = share_all(&props.options);
        self.max_selections = props.max_selections;
        self.selected_options.reconcile(&self.options);
    }

    /// Applies one user event and returns what the host is to be told: after
    /// an item click the whole selection as it now stands, changed or not;
    /// after a click on the trigger nothing.
    pub fn update(&mut self, msg: Msg<T>) -> (emission: Option<Vec<Rc<T>>>)
        ensures
            final(self).options() == old(self).options(),
            final(self).ceiling() == old(self).ceiling(),
            match msg {
                Msg::MultiItemToggle(item) => {
                    &&& T::obeys_eq_spec() ==> final(self).selection() == toggled(
                        old(self).selection(),
                        item,
                        old(self).ceiling(),
                    )
                    &&& final(self).open() == old(self).open()
                    &&& emission matches Some(told)
                    &&& told@ == final(self).selection()
                },
                Msg::ToggleMultiDropdown => {
                    &&& final(self).selection() == old(self).selection()
                    &&& final(self).open() == !old(self).open()
                    &&& emission is None
                },
            },
            T::obeys_eq_spec() && old(self).wf() ==> final(self).wf(),
            old(self).within_ceiling() ==> final(self).within_ceiling(),
    {
        match msg {
            Msg::MultiItemToggle(item) => {
                self.selected_options.toggle(item, self.max_selections);
                Some(self.selected_options.items())
            },
            Msg::ToggleMultiDropdown => {
                self.is_open = !self.is_open;
                None
            },
        }
    }

    /// The rendering of option `index`.
    pub fn render_item(&self, index: usize) -> (node: Html)
        requires
            index < self.options().len(),
        ensures
            T::obeys_eq_spec() ==> self.is_item(index as int, node),
    {
        let option = &self.options[index];
        let class = if self.selected_options.contains(option) {
            "item selected"
        } else {
            "item"
        };
        let mut children: Vec<Html> = Vec::new();
        children.push(option.render());
        Html::Element { tag: Tag::Div, class: Some(class), on_click: Some(Click::Item(index)), children }
    }

    /// The rendering of the dropdown in its present state.
    pub fn view(&self) -> (node: Html)
        ensures
            T::obeys_eq_spec() ==> self.is_view(node),
    {
        let mut label: Vec<Html> = Vec::new();
        label.push(Html::Text((if self.is_open { "Close" } else { "Open" }).to_owned()));
        let button = Html::Element {
            tag: Tag::Button,
            class: None,
            on_click: Some(Click::Trigger),
            children: label,
        };
        let body = if self.is_open {
            let mut items: Vec<Html> = Vec::new();
            let mut i: usize = 0;
            while i < self.options.len()
                invariant
                    i <= self.options().len(),
                    items@.len() == i,
                    T::obeys_eq_spec() ==> forall|k: int|
                        0 <= k < i ==> self.is_item(k, #[trigger] items@[k]),
                decreases self.options().len() - i,
            {
                items.push(self.render_item(i));
                i += 1;
            }
            let ghost given = items;
            let container = T::Layout::layout(items);
            assert(T::obeys_eq_spec() ==> self.is_items(given@) && arranged::<T::Layout>(
                given,
                container,
            ));
            container
        } else {
            Html::Empty
        };
        let mut children: Vec<Html> = Vec::new();
        children.push(button);
        children.push(body);
        Html::element(Tag::Div, Some("multiselect-dropdown"), children)
    }

    /// The event that a click on the rendering stands for: a click on the
    /// trigger toggles the dropdown, a click on option `i` toggles that item;
    /// a position outside the option list stands for nothing.
    pub fn message(&self, click: Click) -> (msg: Option<Msg<T>>)
        ensures
            match click {
                Click::Trigger => msg == Some(Msg::<T>::ToggleMultiDropdown),
                Click::Item(i) => if i < self.options().len() {
                    msg == Some(Msg::MultiItemToggle(self.options()[i as int]))
                } else {
                    msg is None
                },
            },
    {
        match click {
            Click::Trigger => Some(Msg::ToggleMultiDropdown),
            Click::Item(i) => if i < self.options.len() {
                Some(Msg::MultiItemToggle(Rc::clone(&self.options[i])))
            } else {
                None
            },
        }
    }

    /// Handles to the options on offer, in display order.
    pub fn option_list(&self) -> (handles: Vec<Rc<T>>)
        ensures
            handles@ == self.options(),
    {
        share_all(&self.options)
    }

    /// Handles to the selected items, oldest selection first.
    pub fn selected_options(&self) -> (handles: Vec<Rc<T>>)
        ensures
            handles@ == self.selection(),
    {
        self.selected_options.items()
    }

    /// The ceiling on the number of selected items.
    pub fn max_selections(&self) -> (ceiling: Option<usize>)
        ensures
            ceiling == self.ceiling(),
    {
        self.max_selections
    }

    /// Whether the option list is shown.
    pub fn is_open(&self) -> (open: bool)
        ensures
            open == self.open(),
    {
        self.is_open
    }
}

} // verus!
