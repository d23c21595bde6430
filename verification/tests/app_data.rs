use navigator::example_data::get_data;
use navigator::navigator::ViewController;
use navigator::state::{clone_views, AppState, Contact, EditState, EditTransfer, UiView};
use navigator::text::{age_text, parse_age};
use navigator::view::{initial_state, ContactField};

fn contact(name: &str, email: &str, age: u32, food: &str) -> Contact {
    Contact::new(name.to_string(), email.to_string(), age, food.to_string())
}

fn names(s: &AppState) -> Vec<String> {
    s.nav_state.iter().map(|v| v.name().to_string()).collect()
}

#[test]
fn example_contacts() {
    let c = get_data();
    assert_eq!(c.len(), 4);
    assert_eq!(c[0].name, "Billy Bob");
    assert_eq!(c[0].email, "Billybob@gmail.com");
    assert_eq!(c[0].favorite_food, "Curry");
    assert_eq!(c[0].age, 39);
    assert_eq!(c[1].name, "Waka waka");
    assert_eq!(c[1].email, "wakaka@gmail.com");
    assert_eq!(c[1].favorite_food, "Fried Rice");
    assert_eq!(c[1].age, 65);
    assert_eq!(c[2].name, "Chance Rapper");
    assert_eq!(c[2].email, "chancerapper@gmail.com");
    assert_eq!(c[2].favorite_food, "Brussel Sprouts");
    assert_eq!(c[2].age, 22);
    assert_eq!(c[3].name, "Vincente Fernandez");
    assert_eq!(c[3].email, "VFernandez@gmail.com");
    assert_eq!(c[3].favorite_food, "Rice and Beans");
    assert_eq!(c[3].age, 51);
}

#[test]
fn initial_state_shows_contact_list() {
    let s = initial_state();
    assert_eq!(s.app_name, "This is a paragraph about the Navigator.");
    assert_eq!(names(&s), vec!["contacts"]);
    assert_eq!(s.contacts.len(), 4);
    assert_eq!(s.selected, None);
    assert_eq!(s.data_len(), 4);
}

#[test]
fn contact_new_keeps_fields() {
    let c = contact("Ann", "ann@example.org", 7, "Pie");
    assert_eq!(c.name, "Ann");
    assert_eq!(c.email, "ann@example.org");
    assert_eq!(c.age, 7);
    assert_eq!(c.favorite_food, "Pie");
    let d = c.duplicate();
    assert_eq!(d.name, c.name);
    assert_eq!(d.email, c.email);
    assert_eq!(d.age, c.age);
    assert_eq!(d.favorite_food, c.favorite_food);
}

#[test]
fn add_then_pop_view_restores_screens() {
    let mut s = initial_state();
    s.add_view(UiView::new("contact_details".to_string()));
    assert_eq!(s.len(), 2);
    assert_eq!(s.current_view().name(), "contact_details");
    s.pop_view();
    assert_eq!(names(&s), vec!["contacts"]);
    s.pop_view();
    assert_eq!(s.len(), 0);
    s.pop_view();
    assert_eq!(s.len(), 0);
}

#[test]
fn row_click_opens_details_and_selects() {
    let s = initial_state();
    let mut row = s.row(2);
    assert_eq!(row.index, 2);
    assert_eq!(row.contact.name, "Chance Rapper");
    assert_eq!(row.selected, None);
    row.open_details();
    assert_eq!(row.selected, Some(2));
    let screens: Vec<&str> = row.nav_state.iter().map(|v| v.name()).collect();
    assert_eq!(screens, vec!["contacts", "contact_details"]);
}

#[test]
fn absorb_row_keeps_shared_changes_only_when_told() {
    let mut s = initial_state();
    let mut row = s.row(1);
    row.open_details();
    row.contact.name = "Someone else".to_string();
    assert!(!s.absorb_row(row, false, false));
    assert_eq!(names(&s), vec!["contacts"]);
    assert_eq!(s.selected, None);
    let mut row = s.row(1);
    row.open_details();
    row.contact.name = "Someone else".to_string();
    assert!(s.absorb_row(row, false, true));
    assert_eq!(names(&s), vec!["contacts", "contact_details"]);
    assert_eq!(s.selected, Some(1));
    assert_eq!(s.contacts[1].name, "Waka waka");
    let row = s.row(2);
    let mut expected = names(&s);
    assert!(s.absorb_row(row, true, false));
    assert_eq!(names(&s), expected.drain(..).collect::<Vec<_>>());
    assert_eq!(s.selected, Some(1));
}

#[test]
fn clone_views_copies_names() {
    let s = initial_state();
    let v = clone_views(&s.nav_state);
    assert_eq!(v, s.nav_state);
}

#[test]
fn editor_opens_on_selected_contact() {
    let mut s = initial_state();
    s.selected = Some(3);
    assert_eq!(s.open_editor(), 3);
    assert_eq!(names(&s), vec!["contacts", "contact_edit"]);
    assert_eq!(s.selected, Some(3));
}

#[test]
fn detail_text_of_selected_contact() {
    let mut s = initial_state();
    assert_eq!(s.detail_text(ContactField::Name), "");
    assert_eq!(s.detail_text(ContactField::Age), "");
    s.selected = Some(0);
    assert_eq!(s.detail_text(ContactField::Name), "Billy Bob");
    assert_eq!(s.detail_text(ContactField::Email), "Billybob@gmail.com");
    assert_eq!(s.detail_text(ContactField::Age), "39");
    assert_eq!(s.detail_text(ContactField::FavoriteFood), "Curry");
}

#[test]
fn edit_state_of_selected_contact() {
    let mut s = initial_state();
    s.selected = Some(1);
    let e = EditState::new(s);
    assert_eq!(e.index, 1);
    assert_eq!(e.contact.name, "Waka waka");
    assert_eq!(e.contact.age, 65);
    assert!(!e.was_saved);
}

#[test]
fn edit_state_without_selection_is_blank() {
    let s = initial_state();
    let e = EditState::new(s);
    assert_eq!(e.index, 0);
    assert_eq!(e.contact.name, "");
    assert_eq!(e.contact.email, "");
    assert_eq!(e.contact.favorite_food, "");
    assert_eq!(e.contact.age, 31);
    assert!(!e.was_saved);
}

#[test]
fn unsaved_edits_are_not_written_back() {
    let mut s = initial_state();
    s.selected = Some(0);
    let mut e = EditState::new(initial_state());
    e.contact.name = "Changed".to_string();
    EditTransfer.write_back_input(&e, &mut s);
    assert_eq!(s.contacts[0].name, "Billy Bob");
    EditTransfer.read_input(&mut e, &s);
    assert_eq!(e.contact.name, "Changed");
}

#[test]
fn saved_edits_are_written_back_and_read_again() {
    let mut s = initial_state();
    s.selected = Some(2);
    let mut e = EditState::new(initial_state());
    e.index = 2;
    e.contact = contact("Chance", "c@example.org", 23, "Soup");
    e.save();
    assert!(e.was_saved);
    EditTransfer.write_back_input(&e, &mut s);
    assert_eq!(s.contacts[2].name, "Chance");
    assert_eq!(s.contacts[2].age, 23);
    assert_eq!(s.contacts[1].name, "Waka waka");
    EditTransfer.read_input(&mut e, &s);
    assert!(!e.was_saved);
    assert_eq!(e.index, 2);
    assert_eq!(e.contact.name, "Chance");
    assert_eq!(e.contact.email, "c@example.org");
    assert_eq!(e.contact.favorite_food, "Soup");
}

#[test]
fn read_after_save_without_selection_takes_first_contact() {
    let s = initial_state();
    let mut e = EditState::new(initial_state());
    e.index = 3;
    e.save();
    EditTransfer.read_input(&mut e, &s);
    assert_eq!(e.index, 0);
    assert_eq!(e.contact.name, "Billy Bob");
    assert!(!e.was_saved);
}

#[test]
fn age_text_is_decimal() {
    assert_eq!(age_text(0), "0");
    assert_eq!(age_text(7), "7");
    assert_eq!(age_text(39), "39");
    assert_eq!(age_text(100), "100");
    assert_eq!(age_text(u32::MAX), "4294967295");
}

#[test]
fn parse_age_matches_std_parse() {
    for s in [
        "", "+", "-", "-1", "0", "39", "+7", "007", "++1", "12a", " 1", "1 ", "4294967295",
        "4294967296", "99999999999", "+4294967295", "٣", "0x10",
    ] {
        assert_eq!(parse_age(s), s.parse::<u32>().ok(), "{:?}", s);
    }
    assert_eq!(parse_age("39"), Some(39));
    assert_eq!(parse_age("+7"), Some(7));
    assert_eq!(parse_age(""), None);
    assert_eq!(parse_age("4294967296"), None);
}

#[test]
fn age_text_reads_back() {
    for age in [0u32, 1, 9, 10, 31, 65, 1000, 65535, 4294967294, u32::MAX] {
        assert_eq!(parse_age(&age_text(age)), Some(age));
    }
}
