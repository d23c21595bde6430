use vstd::prelude::*;

use crate::example_data::{example_contacts, get_data};
use crate::navigator::{NavView, Navigator, ViewController};
use crate::state::{AppState, Contact, ContactRow, UiView};
use crate::text::{age_text, decimal, law_age_text_round_trip, parse_u32};

verus! {

/// The name of the screen that lists the contacts.
pub open spec fn contacts_screen() -> Seq<char> {
    "contacts"@
}

/// The name of the screen that shows one contact.
pub open spec fn details_screen() -> Seq<char> {
    "contact_details"@
}

/// The name of the screen that edits one contact.
pub open spec fn edit_screen() -> Seq<char> {
    "contact_edit"@
}

/// The text of the application's title paragraph.
pub open spec fn app_title() -> Seq<char> {
    "This is a paragraph about the Navigator."@
}

fn contacts_view() -> (v: UiView)
    ensures
        v@ == contacts_screen(),
{
    UiView::new("contacts".to_string())
}

fn details_view() -> (v: UiView)
    ensures
        v@ == details_screen(),
{
    UiView::new("contact_details".to_string())
}

fn edit_view() -> (v: UiView)
    ensures
        v@ == edit_screen(),
{
    UiView::new("contact_edit".to_string())
}

/// The three screen names are distinct.
pub proof fn lemma_screens_distinct()
    ensures
        contacts_screen() != details_screen(),
        contacts_screen() != edit_screen(),
        details_screen() != edit_screen(),
{
    reveal_strlit("contacts");
    reveal_strlit("contact_details");
    reveal_strlit("contact_edit");
    assert(contacts_screen().len() != details_screen().len());
    assert(contacts_screen().len() != edit_screen().len());
    assert(details_screen().len() != edit_screen().len());
}

/// The navigator of the application: the contact list, made by `build`
/// from builder 0, `contacts`, is shown; the detail screen has builder 1,
/// `details`, and the edit screen builder 2, `edit`.
pub fn navigator<B, W, F: FnOnce(&B) -> W>(contacts: B, details: B, edit: B, build: F) -> (nav:
    Navigator<UiView, B, W>)
    requires
        forall|m: &B| build.requires((m,)),
    ensures
        nav.wf(),
        nav.registered() == seq![contacts_screen(), details_screen(), edit_screen()],
        nav.makers() == seq![contacts, details, edit],
        nav.builders() == seq![0usize],
        nav.pods().len() == 1,
        build.ensures((&contacts,), nav.pods()[0]),
{
    proof {
        lemma_screens_distinct();
    }
    let nav = Navigator::new(contacts_view(), contacts, build);
    assert(!nav.registered().contains(details_screen())) by {
        assert(nav.registered()[0] == contacts_screen());
    }
    let nav = nav.with_view_builder(details_view(), details);
    assert(!nav.registered().contains(edit_screen())) by {
        assert(nav.registered()[0] == contacts_screen());
        assert(nav.registered()[1] == details_screen());
    }
    let nav = nav.with_view_builder(edit_view(), edit);
    assert(nav.registered() =~= seq![contacts_screen(), details_screen(), edit_screen()]);
    assert(nav.makers() =~= seq![contacts, details, edit]);
    nav
}

/// The data the application starts with: the title, the contact list open,
/// the example contacts and no selection.
pub fn initial_state() -> (s: AppState)
    ensures
        s.app_name@ == app_title(),
        s.nav_state@.len() == 1,
        s.nav_state@[0]@ == contacts_screen(),
        s.contacts@.len() == example_contacts().len(),
        forall|i: int| 0 <= i < s.contacts@.len() ==> #[trigger] s.contacts@[i]@ == example_contacts()[i],
        s.selected is None,
{
    let mut nav_state: Vec<UiView> = Vec::new();
    nav_state.push(contacts_view());
    AppState {
        app_name: "This is a paragraph about the Navigator.".to_string(),
        nav_state,
        contacts: get_data(),
        selected: None,
    }
}

impl ContactRow {
    /// A click on the row: opens the detail screen and selects the row's
    /// contact.
    pub fn open_details(&mut self)
        ensures
            final(self).nav_state@.len() == old(self).nav_state@.len() + 1,
            final(self).nav_state@.drop_last() == old(self).nav_state@,
            final(self).nav_state@.last()@ == details_screen(),
            final(self).selected == Some(old(self).index),
            final(self).contact == old(self).contact,
            final(self).index == old(self).index,
    {
        self.nav_state.push(details_view());
        self.selected = Some(self.index);
        assert(self.nav_state@.drop_last() =~= old(self).nav_state@);
    }
}

/// A field of a contact shown on the detail screen.
#[derive(Debug, PartialEq, Eq, Clone, Copy)]
pub enum ContactField {
    Name,
    Email,
    Age,
    FavoriteFood,
}

/// The text in which the detail screen shows a field of `c`.
pub open spec fn field_text(c: Contact, field: ContactField) -> Seq<char> {
    match field {
        ContactField::Name => c.name@,
        ContactField::Email => c.email@,
        ContactField::Age => decimal(c.age as nat),
        ContactField::FavoriteFood => c.favorite_food@,
    }
}

/// The detail screen shows a contact's name, email and favourite food in
/// full, and its age as a text that reads back as that age.
pub proof fn law_field_text(c: Contact)
    ensures
        field_text(c, ContactField::Name) == c.name@,
        field_text(c, ContactField::Email) == c.email@,
        field_text(c, ContactField::FavoriteFood) == c.favorite_food@,
        parse_u32(field_text(c, ContactField::Age)) == Some(c.age),
{
    law_age_text_round_trip(c.age);
}

impl AppState {
    /// The "Edit" button of the detail screen: opens the edit screen, and
    /// returns the index of the selected contact.
    pub fn open_editor(&mut self) -> (idx: usize)
        requires
            old(self).selected is Some,
        ensures
            Some(idx) == old(self).selected,
            final(self).nav_state@ == old(self).nav_state@.push(final(self).nav_state@.last()),
            final(self).nav_state@.last()@ == edit_screen(),
            final(self).contacts == old(self).contacts,
            final(self).selected == old(self).selected,
            final(self).app_name == old(self).app_name,
    {
        self.add_view(edit_view());
        match self.selected {
            Some(i) => i,
            None => 0,
        }
    }

    /// What the detail screen shows for `field`: the field of the selected
    /// contact, or nothing when no contact is selected.
    pub fn detail_text(&self, field: ContactField) -> (s: String)
        requires
            self.selection_in_range(),
        ensures
            s@ == (match self.selected {
                Some(i) => field_text(self.contacts@[i as int], field),
                None => Seq::<char>::empty(),
            }),
            self.selected is None ==> s@.len() == 0,
            self.selected is Some && field == ContactField::Name ==> s@ == self.contacts@[self.selected->0 as int].name@,
            self.selected is Some && field == ContactField::Email ==> s@ == self.contacts@[self.selected->0 as int].email@,
            self.selected is Some && field == ContactField::FavoriteFood ==> s@ == self.contacts@[self.selected->0 as int].favorite_food@,
            self.selected is Some && field == ContactField::Age ==> parse_u32(s@) == Some(self.contacts@[self.selected->0 as int].age),
    {
        proof {
            if let Some(i) = self.selected {
                law_field_text(self.contacts@[i as int]);
            }
        }
        match self.selected {
            Some(idx) => {
                let c = &self.contacts[idx];
                match field {
                    ContactField::Name => c.name.clone(),
                    ContactField::Email => c.email.clone(),
                    ContactField::Age => age_text(c.age),
                    ContactField::FavoriteFood => c.favorite_food.clone(),
                }
            },
            None => String::new(),
        }
    }
}

/// The background of a row of the contact list, as red, green and blue: dark
/// grey while pressed, light grey under the pointer, else white.
pub fn row_background(is_active: bool, is_hot: bool) -> (rgb: (u8, u8, u8))
    ensures
        is_active ==> rgb == (0x88u8, 0x88u8, 0x88u8),
        !is_active && is_hot ==> rgb == (0xddu8, 0xddu8, 0xddu8),
        !is_active && !is_hot ==> rgb == (0xffu8, 0xffu8, 0xffu8),
{
    if is_active {
        (0x88, 0x88, 0x88)
    } else if is_hot {
        (0xdd, 0xdd, 0xdd)
    } else {
        (0xff, 0xff, 0xff)
    }
}

} // verus!
