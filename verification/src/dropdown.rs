//! The single-select dropdown: an option list, at most one chosen option, and
//! an open/closed flag.

use crate::html::{Click, Html, Tag};
use crate::selection::share_all;
use std::rc::Rc;
use vstd::prelude::*;

verus! {

/// What an item of a dropdown must offer: value equality, cheap duplication
/// and a rendering.
pub trait DropdownItemDisplay: PartialEq + Clone + 'static {
    fn render(&self) -> Html;
}

/// What the host configures: the options on offer.
pub struct Props<T: DropdownItemDisplay> {
    pub options: Vec<Rc<T>>,
}

/// What the user can do to the dropdown.
pub enum Msg<T> {
    /// A click on a rendered option.
    Select(Rc<T>),
    /// A click on the field that shows the chosen option.
    Toggle,
}

/// The dropdown's state.
pub struct Dropdown<T: DropdownItemDisplay> {
    options: Vec<Rc<T>>,
    selected_index: Option<usize>,
    is_open: bool,
}

/// `std::rc::Rc::ptr_eq`: whether two handles point to the same allocation.
/// Two handles to one allocation hold one value; nothing is claimed of
/// handles to different allocations.
#[verifier::external_body]
fn same_handle<T>(a: &Rc<T>, b: &Rc<T>) -> (same: bool)
    ensures
        same ==> *a == *b,
{
    Rc::ptr_eq(a, b)
}

/// A position of `options` whose handle is `option`'s own, if the search
/// finds one.
pub fn locate<T>(options: &Vec<Rc<T>>, option: &Rc<T>) -> (found: Option<usize>)
    ensures
        is_located(options@, *option, found),
{
    let mut i: usize = 0;
    while i < options.len()
        invariant
            i <= options.len(),
            forall|j: int| 0 <= j < i ==> compares(#[trigger] options@[j], *option, false),
        decreases options.len() - i,
    {
        if same_handle(&options[i], option) {
            return Some(i);
        }
        i += 1;
    }
    None
}

/// The comparison of the handles `a` and `b` can answer `same`. What it
/// answers depends on where the two handles point, not on the values alone.
pub closed spec fn compares<T>(a: Rc<T>, b: Rc<T>, same: bool) -> bool {
    call_ensures(same_handle::<T>, (&a, &b), same)
}

/// `found` is what the search of `options` for the handle `option` reports
/// on the answers that the handle comparison gave: the first position at
/// which it answered yes, or `None` where it answered no at every position.
pub open spec fn is_located<T>(options: Seq<Rc<T>>, option: Rc<T>, found: Option<usize>) -> bool {
    match found {
        Some(i) => {
            &&& i < options.len()
            &&& options[i as int] == option
            &&& compares(options[i as int], option, true)
            &&& forall|j: int| 0 <= j < i ==> compares(#[trigger] options[j], option, false)
        },
        None => forall|j: int|
            0 <= j < options.len() ==> compares(#[trigger] options[j], option, false),
    }
}

/// `node` is the field that shows the chosen option, or an invitation to
/// choose where none is chosen.
pub open spec fn is_selected_field<T: DropdownItemDisplay>(
    chosen: Option<Rc<T>>,
    node: Html,
) -> bool {
    &&& node matches Html::Element { tag, class, on_click, children }
    &&& tag == Tag::Div
    &&& class == Some("dropdown-selected")
    &&& on_click == Some(Click::Trigger)
    &&& children@.len() == 1
    &&& match chosen {
        Some(option) => call_ensures(T::render, (&*option,), children@[0]),
        None => children@[0] matches Html::Text(text) && text@ == "Select Option"@,
    }
}

/// `node` is the rendering of option `i` of `options`.
pub open spec fn is_option<T: DropdownItemDisplay>(options: Seq<Rc<T>>, i: int, node: Html) -> bool {
    &&& node matches Html::Element { tag, class, on_click, children }
    &&& tag == Tag::Div
    &&& class is None
    &&& on_click == Some(Click::Item(i as usize))
    &&& children@.len() == 1
    &&& call_ensures(T::render, (&*options[i],), children@[0])
}

/// `node` is the container of the renderings of all `options`, in order.
pub open spec fn is_option_list<T: DropdownItemDisplay>(options: Seq<Rc<T>>, node: Html) -> bool {
    &&& node matches Html::Element { tag, class, on_click, children }
    &&& tag == Tag::Div
    &&& class == Some("dropdown-options")
    &&& on_click is None
    &&& children@.len() == options.len()
    &&& forall|i: int| 0 <= i < options.len() ==> is_option(options, i, #[trigger] children@[i])
}

/// The class of the dropdown's outermost element.
pub open spec fn dropdown_class(open: bool) -> &'static str {
    if open {
        "dropdown is-open"
    } else {
        "dropdown"
    }
}

impl<T: DropdownItemDisplay> Dropdown<T> {
    /// The options on offer, in display order.
    pub closed spec fn options(&self) -> Seq<Rc<T>> {
        self.options@
    }

    /// The position of the chosen option.
    pub closed spec fn selected(&self) -> Option<usize> {
        self.selected_index
    }

    /// Whether the option list is shown.
    pub closed spec fn open(&self) -> bool {
        self.is_open
    }

    /// The chosen position, if any, is a position of the option list.
    pub open spec fn selected_in_range(&self) -> bool {
        self.selected() matches Some(i) ==> i < self.options().len()
    }

    /// The chosen option.
    pub open spec fn chosen(&self) -> Option<Rc<T>> {
        match self.selected() {
            Some(i) => Some(self.options()[i as int]),
            None => None,
        }
    }

    /// `node` is the rendering of the dropdown: the field with the chosen
    /// option, followed by nothing while closed and by the option list while
    /// open.
    pub open spec fn is_view(&self, node: Html) -> bool {
        &&& node matches Html::Element { tag, class, on_click, children }
        &&& tag == Tag::Div
        &&& class == Some(dropdown_class(self.open()))
        &&& on_click is None
        &&& children@.len() == 2
        &&& is_selected_field(self.chosen(), children@[0])
        &&& if self.open() {
            is_option_list(self.options(), children@[1])
        } else {
            children@[1] == Html::Empty
        }
    }

    /// A closed dropdown over the host's options, with nothing chosen.
    pub fn create(props: &Props<T>) -> (state: Self)
        ensures
            state.options() == props.options@,
            state.selected() is None,
            !state.open(),
    {
        Dropdown { options: share_all(&props.options), selected_index: None, is_open: false }
    }

    /// Takes over the host's new options. The chosen position stays as it is.
    pub fn changed(&mut self, props: &Props<T>)
        ensures
            final(self).options() == props.options@,
            final(self).selected() == old(self).selected(),
            final(self).open() == old(self).open(),
    {
        self.options = share_all(&props.options);
    }

    /// Chooses the option at `found` and closes the dropdown, and returns the
    /// option for the host to be told of; where `found` is `None`, nothing
    /// changes and the host is told nothing.
    pub fn select(&mut self, found: Option<usize>, option: Rc<T>) -> (emission: Option<Rc<T>>)
        requires
            found matches Some(i) ==> i < old(self).options().len(),
        ensures
            final(self).options() == old(self).options(),
            match found {
                Some(i) => {
                    &&& final(self).selected() == Some(i)
                    &&& !final(self).open()
                    &&& emission == Some(option)
                },
                None => {
                    &&& final(self).selected() == old(self).selected()
                    &&& final(self).open() == old(self).open()
                    &&& emission is None
                },
            },
            old(self).selected_in_range() ==> final(self).selected_in_range(),
    {
        match found {
            Some(index) => {
                self.selected_index = Some(index);
                self.is_open = false;
                Some(option)
            },
            None => None,
        }
    }

    /// Applies one user event and returns what the host is to be told. A
    /// click on an option chooses the first position whose handle the
    /// comparison finds to be the option's own, and changes nothing where it
    /// finds none; a click on the field opens or closes the dropdown and
    /// tells the host nothing.
    pub fn update(&mut self, msg: Msg<T>) -> (emission: Option<Rc<T>>)
        ensures
            final(self).options() == old(self).options(),
            match msg {
                Msg::Select(option) => exists|found: Option<usize>|
                    {
                        &&& #[trigger] is_located(old(self).options(), option, found)
                        &&& match found {
                            Some(i) => {
                                &&& final(self).selected() == Some(i)
                                &&& !final(self).open()
                                &&& emission == Some(option)
                            },
                            None => {
                                &&& final(self).selected() == old(self).selected()
                                &&& final(self).open() == old(self).open()
                                &&& emission is None
                            },
                        }
                    },
                Msg::Toggle => {
                    &&& final(self).selected() == old(self).selected()
                    &&& final(self).open() == !old(self).open()
                    &&& emission is None
                },
            },
            old(self).selected_in_range() ==> final(self).selected_in_range(),
    {
        match msg {
            Msg::Select(option) => {
                let found = locate(&self.options, &option);
                self.select(found, option)
            },
            Msg::Toggle => {
                self.is_open = !self.is_open;
                None
            },
        }
    }

    /// The rendering of option `index`.
    pub fn render_option(&self, index: usize) -> (node: Html)
        requires
            index < self.options().len(),
        ensures
            is_option(self.options(), index as int, node),
    {
        let mut children: Vec<Html> = Vec::new();
        children.push(self.options[index].render());
        Html::Element { tag: Tag::Div, class: None, on_click: Some(Click::Item(index)), children }
    }

    /// The rendering of the dropdown in its present state.
    pub fn view(&self) -> (node: Html)
        requires
            self.selected_in_range(),
        ensures
            self.is_view(node),
    {
        let selected_text = match self.selected_index {
            Some(selected) => self.options[selected].render(),
            None => Html::Text("Select Option".to_owned()),
        };
        let mut shown: Vec<Html> = Vec::new();
        shown.push(selected_text);
        let field = Html::Element {
            tag: Tag::Div,
            class: Some("dropdown-selected"),
            on_click: Some(Click::Trigger),
            children: shown,
        };
        let dropdown_class = if self.is_open {
            "dropdown is-open"
        } else {
            "dropdown"
        };
        let body = if self.is_open {
            let mut options: Vec<Html> = Vec::new();
            let mut i: usize = 0;
            while i < self.options.len()
                invariant
                    i <= self.options().len(),
                    options@.len() == i,
                    forall|k: int| 0 <= k < i ==> is_option(self.options(), k, #[trigger] options@[k]),
                decreases self.options().len() - i,
            {
                options.push(self.render_option(i));
                i += 1;
            }
            Html::element(Tag::Div, Some("dropdown-options"), options)
        } else {
            Html::Empty
        };
        let mut children: Vec<Html> = Vec::new();
        children.push(field);
        children.push(body);
        Html::element(Tag::Div, Some(dropdown_class), children)
    }

    /// The event that a click on the rendering stands for: a click on the
    /// field toggles the dropdown, a click on option `i` chooses that option;
    /// a position outside the option list stands for nothing.
    pub fn message(&self, click: Click) -> (msg: Option<Msg<T>>)
        ensures
            match click {
                Click::Trigger => msg == Some(Msg::<T>::Toggle),
                Click::Item(i) => if i < self.options().len() {
                    msg == Some(Msg::Select(self.options()[i as int]))
                } else {
                    msg is None
                },
            },
    {
        match click {
            Click::Trigger => Some(Msg::Toggle),
            Click::Item(i) => if i < self.options.len() {
                Some(Msg::Select(Rc::clone(&self.options[i])))
            } else {
                None
            },
        }
    }

    /// Handles to the options on offer, in display order.
    pub fn option_list(&self) -> (handles: Vec<Rc<T>>)
        ensures
            handles@ == self.options(),
    {
        share_all(&self.options)
    }

    /// The position of the chosen option.
    pub fn selected_index(&self) -> (index: Option<usize>)
        ensures
            index == self.selected(),
    {
        self.selected_index
    }

    /// Whether the option list is shown.
    pub fn is_open(&self) -> (open: bool)
        ensures
            open == self.open(),
    {
        self.is_open
    }
}

} // verus!
