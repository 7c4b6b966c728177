use rainfrog::html::{Click, Html, Tag};
use rainfrog::multi_select_dropdown::{
    GridLayout, Layout, ListLayout, Msg, MultiSelectDropdown, MultiSelectDropdownItemDisplay,
    Props,
};
use std::rc::Rc;

#[derive(Clone, Debug, PartialEq)]
struct Fruit(&'static str);

impl MultiSelectDropdownItemDisplay for Fruit {
    type Layout = ListLayout;

    fn render(&self) -> Html {
        Html::Text(self.0.to_string())
    }
}

#[derive(Clone, Debug, PartialEq)]
struct Tile(u32);

impl MultiSelectDropdownItemDisplay for Tile {
    type Layout = GridLayout;

    fn render(&self) -> Html {
        Html::Text(format!("#{}", self.0))
    }
}

fn fruit(name: &'static str) -> Rc<Fruit> {
    Rc::new(Fruit(name))
}

fn names(items: &[Rc<Fruit>]) -> Vec<&'static str> {
    items.iter().map(|item| item.0).collect()
}

fn dropdown(options: &[&'static str], ceiling: Option<usize>) -> MultiSelectDropdown<Fruit> {
    let props = Props { options: options.iter().map(|name| fruit(name)).collect(), max_selections: ceiling };
    MultiSelectDropdown::create(&props)
}

fn click(state: &mut MultiSelectDropdown<Fruit>, name: &'static str) -> Vec<&'static str> {
    let told = state.update(Msg::MultiItemToggle(fruit(name)));
    names(&told.expect("an item click tells the host the selection"))
}

fn text(content: &str) -> Html {
    Html::Text(content.to_string())
}

fn element(tag: Tag, class: Option<&'static str>, on_click: Option<Click>, children: Vec<Html>) -> Html {
    Html::Element { tag, class, on_click, children }
}

#[test]
fn create_starts_closed_and_empty() {
    let state = dropdown(&["A", "B", "C"], Some(2));
    assert!(!state.is_open());
    assert!(state.selected_options().is_empty());
    assert_eq!(names(&state.option_list()), vec!["A", "B", "C"]);
    assert_eq!(state.max_selections(), Some(2));
}

#[test]
fn ceiling_scenario_emits_after_every_click() {
    let mut state = dropdown(&["A", "B", "C"], Some(2));
    assert!(state.update(Msg::ToggleMultiDropdown).is_none());
    assert!(state.is_open());
    assert_eq!(click(&mut state, "A"), vec!["A"]);
    assert_eq!(click(&mut state, "B"), vec!["A", "B"]);
    assert_eq!(click(&mut state, "C"), vec!["A", "B"]);
    assert_eq!(click(&mut state, "A"), vec!["B"]);
    assert!(state.is_open());
}

#[test]
fn replaced_options_prune_the_selection() {
    let mut state = dropdown(&["A", "B"], None);
    assert_eq!(click(&mut state, "A"), vec!["A"]);
    state.changed(&Props { options: vec![fruit("B"), fruit("C")], max_selections: None });
    assert!(state.selected_options().is_empty());
    assert_eq!(names(&state.option_list()), vec!["B", "C"]);
}

#[test]
fn replaced_options_keep_what_is_still_offered_in_order() {
    let mut state = dropdown(&["A", "B", "C", "D"], None);
    click(&mut state, "D");
    click(&mut state, "A");
    click(&mut state, "C");
    state.changed(&Props { options: vec![fruit("C"), fruit("D"), fruit("E")], max_selections: Some(5) });
    assert_eq!(names(&state.selected_options()), vec!["D", "C"]);
    assert_eq!(state.max_selections(), Some(5));
}

#[test]
fn changed_keeps_the_open_flag_and_takes_the_new_ceiling() {
    let mut state = dropdown(&["A"], Some(1));
    state.update(Msg::ToggleMultiDropdown);
    state.changed(&Props { options: vec![fruit("A"), fruit("B")], max_selections: None });
    assert!(state.is_open());
    assert_eq!(state.max_selections(), None);
    assert_eq!(click(&mut state, "A"), vec!["A"]);
    assert_eq!(click(&mut state, "B"), vec!["A", "B"]);
}

#[test]
fn toggling_twice_restores_an_unselected_item() {
    let mut state = dropdown(&["A", "B", "C"], None);
    click(&mut state, "A");
    click(&mut state, "B");
    assert_eq!(click(&mut state, "C"), vec!["A", "B", "C"]);
    assert_eq!(click(&mut state, "C"), vec!["A", "B"]);
}

#[test]
fn toggling_twice_moves_a_selected_item_to_the_end() {
    let mut state = dropdown(&["A", "B"], None);
    click(&mut state, "A");
    click(&mut state, "B");
    assert_eq!(click(&mut state, "A"), vec!["B"]);
    assert_eq!(click(&mut state, "A"), vec!["B", "A"]);
}

#[test]
fn selection_never_exceeds_the_ceiling() {
    let mut state = dropdown(&["A", "B", "C", "D"], Some(2));
    for name in ["A", "B", "C", "D", "C", "A", "D", "C", "B", "A"] {
        let told = click(&mut state, name);
        assert!(told.len() <= 2);
        assert_eq!(told, names(&state.selected_options()));
    }
}

#[test]
fn ceiling_of_zero_rejects_every_selection() {
    let mut state = dropdown(&["A"], Some(0));
    assert_eq!(click(&mut state, "A"), Vec::<&str>::new());
    assert!(state.selected_options().is_empty());
}

#[test]
fn deselecting_works_at_the_ceiling() {
    let mut state = dropdown(&["A", "B"], Some(1));
    assert_eq!(click(&mut state, "A"), vec!["A"]);
    assert_eq!(click(&mut state, "B"), vec!["A"]);
    assert_eq!(click(&mut state, "A"), Vec::<&str>::new());
    assert_eq!(click(&mut state, "B"), vec!["B"]);
}

#[test]
fn equal_values_behind_different_handles_are_one_selection() {
    let mut state = dropdown(&["A"], None);
    let first = fruit("A");
    let second = fruit("A");
    assert!(!Rc::ptr_eq(&first, &second));
    let told = state.update(Msg::MultiItemToggle(first)).unwrap();
    assert_eq!(told.len(), 1);
    let told = state.update(Msg::MultiItemToggle(second)).unwrap();
    assert!(told.is_empty());
}

#[test]
fn emission_shares_the_selected_handles() {
    let mut state = dropdown(&["A"], None);
    let item = fruit("A");
    let told = state.update(Msg::MultiItemToggle(Rc::clone(&item))).unwrap();
    assert!(Rc::ptr_eq(&told[0], &item));
}

#[test]
fn opening_and_closing_leaves_the_selection_alone() {
    let mut state = dropdown(&["A", "B"], Some(2));
    click(&mut state, "B");
    assert!(state.update(Msg::ToggleMultiDropdown).is_none());
    assert!(state.is_open());
    assert_eq!(names(&state.selected_options()), vec!["B"]);
    assert!(state.update(Msg::ToggleMultiDropdown).is_none());
    assert!(!state.is_open());
    assert_eq!(names(&state.selected_options()), vec!["B"]);
    assert_eq!(state.max_selections(), Some(2));
}

#[test]
fn item_click_leaves_the_open_flag_alone() {
    let mut state = dropdown(&["A"], None);
    click(&mut state, "A");
    assert!(!state.is_open());
    state.update(Msg::ToggleMultiDropdown);
    click(&mut state, "A");
    assert!(state.is_open());
}

#[test]
fn closed_view_shows_only_the_trigger() {
    let mut state = dropdown(&["A", "B"], None);
    click(&mut state, "A");
    let expected = element(
        Tag::Div,
        Some("multiselect-dropdown"),
        None,
        vec![element(Tag::Button, None, Some(Click::Trigger), vec![text("Open")]), Html::Empty],
    );
    assert_eq!(state.view(), expected);
}

#[test]
fn open_view_lists_the_options_and_tags_the_selected() {
    let mut state = dropdown(&["A", "B", "C"], None);
    state.update(Msg::ToggleMultiDropdown);
    click(&mut state, "B");
    let expected = element(
        Tag::Div,
        Some("multiselect-dropdown"),
        None,
        vec![
            element(Tag::Button, None, Some(Click::Trigger), vec![text("Close")]),
            element(
                Tag::Div,
                Some("list"),
                None,
                vec![
                    element(Tag::Div, Some("item"), Some(Click::Item(0)), vec![text("A")]),
                    element(Tag::Div, Some("item selected"), Some(Click::Item(1)), vec![text("B")]),
                    element(Tag::Div, Some("item"), Some(Click::Item(2)), vec![text("C")]),
                ],
            ),
        ],
    );
    assert_eq!(state.view(), expected);
}

#[test]
fn open_view_of_no_options_is_an_empty_container() {
    let mut state = dropdown(&[], None);
    state.update(Msg::ToggleMultiDropdown);
    let expected = element(
        Tag::Div,
        Some("multiselect-dropdown"),
        None,
        vec![
            element(Tag::Button, None, Some(Click::Trigger), vec![text("Close")]),
            element(Tag::Div, Some("list"), None, vec![]),
        ],
    );
    assert_eq!(state.view(), expected);
}

#[test]
fn view_uses_the_layout_of_the_item_type() {
    let props = Props { options: vec![Rc::new(Tile(7))], max_selections: None };
    let mut state = MultiSelectDropdown::create(&props);
    state.update(Msg::ToggleMultiDropdown);
    state.update(Msg::MultiItemToggle(Rc::new(Tile(7))));
    let expected = element(
        Tag::Div,
        Some("multiselect-dropdown"),
        None,
        vec![
            element(Tag::Button, None, Some(Click::Trigger), vec![text("Close")]),
            element(
                Tag::Div,
                Some("grid"),
                None,
                vec![element(Tag::Div, Some("item selected"), Some(Click::Item(0)), vec![text("#7")])],
            ),
        ],
    );
    assert_eq!(state.view(), expected);
}

#[test]
fn render_item_tags_by_value_equality() {
    let mut state = dropdown(&["A", "B"], None);
    click(&mut state, "B");
    assert_eq!(
        state.render_item(1),
        element(Tag::Div, Some("item selected"), Some(Click::Item(1)), vec![text("B")])
    );
    assert_eq!(
        state.render_item(0),
        element(Tag::Div, Some("item"), Some(Click::Item(0)), vec![text("A")])
    );
}

#[test]
fn list_layout_wraps_items_in_a_list() {
    let items = vec![text("x"), Html::Empty];
    assert_eq!(
        ListLayout::layout(items),
        element(Tag::Div, Some("list"), None, vec![text("x"), Html::Empty])
    );
}

#[test]
fn grid_layout_wraps_items_in_a_grid() {
    let items = vec![text("x"), text("y")];
    assert_eq!(
        GridLayout::layout(items),
        element(Tag::Div, Some("grid"), None, vec![text("x"), text("y")])
    );
}

#[test]
fn clicks_stand_for_messages() {
    let state = dropdown(&["A", "B"], None);
    assert!(matches!(state.message(Click::Trigger), Some(Msg::ToggleMultiDropdown)));
    let options = state.option_list();
    match state.message(Click::Item(1)) {
        Some(Msg::MultiItemToggle(item)) => assert!(Rc::ptr_eq(&item, &options[1])),
        _ => panic!("a click on an option toggles it"),
    }
    assert!(state.message(Click::Item(2)).is_none());
}

#[test]
fn clicks_on_the_view_drive_the_dropdown() {
    let mut state = dropdown(&["A", "B", "C"], Some(2));
    let open = state.message(Click::Trigger).unwrap();
    assert!(state.update(open).is_none());
    let mut emissions = Vec::new();
    for position in [0, 1, 2, 0] {
        let msg = state.message(Click::Item(position)).unwrap();
        emissions.push(names(&state.update(msg).unwrap()));
    }
    assert_eq!(emissions, vec![vec!["A"], vec!["A", "B"], vec!["A", "B"], vec!["B"]]);
}
