use navigator::navigator::{NavUpdate, NavView, Navigator, ViewController};
use navigator::state::{AppState, UiView};
use navigator::view::{initial_state, navigator, row_background};

type Nav = Navigator<UiView, &'static str, String>;

fn view(name: &str) -> UiView {
    UiView::new(name.to_string())
}

fn build(b: &&'static str) -> String {
    format!("widget of {}", b)
}

fn app_nav() -> Nav {
    navigator("list", "details", "edit", build)
}

fn data_with(screens: &[&str]) -> AppState {
    let mut s = initial_state();
    s.nav_state = screens.iter().map(|n| view(n)).collect();
    s
}

fn pods(nav: &mut Nav) -> Vec<String> {
    (0..nav.depth()).map(|k| nav.pod_mut(k).clone()).collect()
}

#[test]
fn new_navigator_shows_one_screen() {
    let mut nav: Nav = Navigator::new(view("home"), "home builder", build);
    assert_eq!(nav.depth(), 1);
    assert_eq!(nav.top(), 0);
    assert!(nav.has_view(&view("home")));
    assert!(!nav.has_view(&view("away")));
    assert_eq!(nav.builder_index(&view("home")), Some(0));
    assert_eq!(nav.builder_index(&view("away")), None);
    assert_eq!(nav.top_pod_mut().as_str(), "widget of home builder");
}

#[test]
fn registered_builders_follow_registration_order() {
    let mut nav: Nav = Navigator::new(view("a"), "A", build)
        .with_view_builder(view("b"), "B")
        .with_view_builder(view("c"), "C");
    assert!(nav.has_view(&view("a")));
    assert!(nav.has_view(&view("b")));
    assert!(nav.has_view(&view("c")));
    assert!(!nav.has_view(&view("d")));
    assert_eq!(nav.builder_index(&view("c")), Some(2));
    assert_eq!(nav.push_view(view("c"), build), 2);
    assert_eq!(nav.push_view(view("b"), build), 1);
    assert_eq!(nav.push_view(view("a"), build), 0);
    assert_eq!(nav.depth(), 4);
    assert_eq!(nav.top(), 0);
    assert_eq!(pods(&mut nav), vec!["widget of A", "widget of C", "widget of B", "widget of A"]);
}

#[test]
fn application_navigator_knows_three_screens() {
    let mut nav = app_nav();
    assert_eq!(nav.depth(), 1);
    assert_eq!(nav.top(), 0);
    assert!(nav.has_view(&view("contacts")));
    assert!(nav.has_view(&view("contact_details")));
    assert!(nav.has_view(&view("contact_edit")));
    assert!(!nav.has_view(&view("settings")));
    assert_eq!(pods(&mut nav), vec!["widget of list"]);
}

#[test]
fn pop_after_push_restores_the_stack() {
    let mut nav = app_nav();
    let b = nav.push_view(view("contact_details"), build);
    assert_eq!(b, 1);
    assert_eq!(nav.depth(), 2);
    assert_eq!(nav.top(), 1);
    assert_eq!(pods(&mut nav), vec!["widget of list", "widget of details"]);
    nav.pop_view();
    assert_eq!(nav.depth(), 1);
    assert_eq!(nav.top(), 0);
    assert_eq!(pods(&mut nav), vec!["widget of list"]);
}

#[test]
fn bottom_screen_is_never_popped() {
    let mut nav = app_nav();
    nav.pop_view();
    assert_eq!(nav.depth(), 1);
    nav.pop_view();
    nav.pop_view();
    assert_eq!(nav.depth(), 1);
    assert_eq!(nav.top(), 0);
    assert_eq!(pods(&mut nav), vec!["widget of list"]);
}

#[test]
fn pod_mut_changes_one_widget() {
    let mut nav = app_nav();
    nav.push_view(view("contact_edit"), build);
    nav.pod_mut(0).push_str(" (hidden)");
    nav.top_pod_mut().push_str(" (shown)");
    assert_eq!(pods(&mut nav), vec!["widget of list (hidden)", "widget of edit (shown)"]);
    assert_eq!(nav.depth(), 2);
    assert_eq!(nav.top(), 2);
}

#[test]
fn update_on_same_data_updates_top() {
    let mut nav = app_nav();
    let a = data_with(&["contacts"]);
    let b = data_with(&["contacts"]);
    assert_eq!(nav.update(&a, &b, true, build), NavUpdate::UpdateTop);
    assert_eq!(nav.depth(), 1);
}

#[test]
fn update_pushes_a_new_top_screen() {
    let mut nav = app_nav();
    let old = data_with(&["contacts"]);
    let new = data_with(&["contacts", "contact_details"]);
    assert_eq!(nav.update(&old, &new, false, build), NavUpdate::Pushed(1));
    assert_eq!(nav.depth(), 2);
    assert_eq!(nav.top(), 1);
    let newer = data_with(&["contacts", "contact_details", "contact_edit"]);
    assert_eq!(nav.update(&new, &newer, false, build), NavUpdate::Pushed(2));
    assert_eq!(nav.depth(), 3);
    assert_eq!(nav.top(), 2);
    assert_eq!(pods(&mut nav), vec!["widget of list", "widget of details", "widget of edit"]);
}

#[test]
fn update_with_same_top_screen_does_nothing() {
    let mut nav = app_nav();
    let old = data_with(&["contacts"]);
    let new = data_with(&["contacts", "contacts"]);
    assert_eq!(nav.update(&old, &new, false, build), NavUpdate::Unchanged);
    assert_eq!(nav.depth(), 1);
}

#[test]
fn update_pops_when_fewer_screens_are_open() {
    let mut nav = app_nav();
    nav.push_view(view("contact_details"), build);
    let old = data_with(&["contacts", "contact_details"]);
    let new = data_with(&["contacts"]);
    assert_eq!(nav.update(&old, &new, false, build), NavUpdate::Popped { removed: true });
    assert_eq!(nav.depth(), 1);
    let empty = data_with(&[]);
    assert_eq!(nav.update(&new, &empty, false, build), NavUpdate::Popped { removed: false });
    assert_eq!(nav.depth(), 1);
}

#[test]
fn update_with_as_many_screens_changes_children() {
    let mut nav = app_nav();
    let old = data_with(&["contacts"]);
    let new = data_with(&["contact_details"]);
    assert_eq!(nav.update(&old, &new, false, build), NavUpdate::ChildrenChanged);
    assert_eq!(nav.depth(), 1);
}

#[test]
fn navigator_follows_opened_screens() {
    let mut nav = app_nav();
    let mut data = initial_state();
    let before = data_with(&["contacts"]);
    data.add_view(view("contact_details"));
    let r = nav.update(&before, &data, false, build);
    assert_eq!(r, NavUpdate::Pushed(nav.top()));
    assert_eq!(nav.top(), 1);
    assert_eq!(data.current_view().name(), "contact_details");
    assert_eq!(nav.top_pod_mut().as_str(), "widget of details");
}

#[test]
fn event_goes_to_top_widget_unless_meant_for_hidden_ones() {
    let mut nav = app_nav();
    nav.push_view(view("contact_details"), build);
    nav.push_view(view("contact_edit"), build);
    let plan = nav.event(false, false);
    assert_eq!(plan.targets, vec![2]);
    assert!(!plan.pop_view);
    let plan = nav.event(true, true);
    assert_eq!(plan.targets, vec![0, 1, 2]);
    assert!(plan.pop_view);
}

#[test]
fn pop_command_closes_top_screen_of_data() {
    let nav = app_nav();
    let mut data = data_with(&["contacts", "contact_details"]);
    if nav.event(false, false).pop_view {
        data.pop_view();
    }
    assert_eq!(data.len(), 2);
    if nav.event(false, true).pop_view {
        data.pop_view();
    }
    assert_eq!(data.len(), 1);
    assert_eq!(data.current_view().name(), "contacts");
}

#[test]
fn lifecycle_plan() {
    let mut nav = app_nav();
    let p = nav.lifecycle(false, true);
    assert_eq!(p.targets, vec![0]);
    assert!(p.children_changed);
    nav.push_view(view("contact_edit"), build);
    let p = nav.lifecycle(false, false);
    assert_eq!(p.targets, vec![1]);
    assert!(!p.children_changed);
    let p = nav.lifecycle(true, true);
    assert_eq!(p.targets, vec![0, 1]);
    assert!(!p.children_changed);
}

#[test]
fn view_names_compare_by_text() {
    let a = view("contacts");
    let b = view("contacts");
    let c = view("contact_edit");
    assert!(a.same_view(&b));
    assert!(!a.same_view(&c));
    assert_eq!(a.clone_view(), a);
    assert_eq!(a.name(), "contacts");
}

#[test]
fn row_background_colours() {
    assert_eq!(row_background(true, true), (0x88, 0x88, 0x88));
    assert_eq!(row_background(true, false), (0x88, 0x88, 0x88));
    assert_eq!(row_background(false, true), (0xdd, 0xdd, 0xdd));
    assert_eq!(row_background(false, false), (0xff, 0xff, 0xff));
}
