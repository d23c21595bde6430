use vstd::prelude::*;

use crate::navigator::{NavView, ViewController};

verus! {

/// The name of a screen of the application.
#[derive(Clone, Debug, Hash, PartialEq, Eq)]
pub struct UiView {
    name: String,
}

impl View for UiView {
    type V = Seq<char>;

    closed spec fn view(&self) -> Seq<char> {
        self.name@
    }
}

impl UiView {
    pub fn new(name: String) -> (v: Self)
        ensures
            v@ == name@,
    {
        Self { name }
    }

    /// The name as text.
    pub fn name(&self) -> (s: &str)
        ensures
            s@ == self@,
    {
        self.name.as_str()
    }
}

impl NavView for UiView {
    fn same_view(&self, other: &Self) -> (b: bool) {
        self.name == other.name
    }

    fn clone_view(&self) -> (c: Self) {
        UiView { name: self.name.clone() }
    }
}

/// A copy of a list of screen names.
pub fn clone_views(views: &Vec<UiView>) -> (r: Vec<UiView>)
    ensures
        r@ == views@,
{
    let mut r: Vec<UiView> = Vec::new();
    let n = views.len();
    for i in 0..n
        invariant
            n == views@.len(),
            r@ == views@.take(i as int),
    {
        r.push(views[i].clone_view());
        assert(r@ =~= views@.take(i + 1));
    }
    assert(views@.take(n as int) =~= views@);
    r
}

/// A person in the address book.
#[derive(Clone, Debug)]
pub struct Contact {
    pub name: String,
    pub email: String,
    pub favorite_food: String,
    pub age: u32,
}

/// What a contact holds, as mathematical values.
pub struct ContactView {
    pub name: Seq<char>,
    pub email: Seq<char>,
    pub favorite_food: Seq<char>,
    pub age: u32,
}

impl View for Contact {
    type V = ContactView;

    open spec fn view(&self) -> ContactView {
        ContactView {
            name: self.name@,
            email: self.email@,
            favorite_food: self.favorite_food@,
            age: self.age,
        }
    }
}

impl Contact {
    pub fn new(name: String, email: String, age: u32, favorite_food: String) -> (c: Self)
        ensures
            c.name == name,
            c.email == email,
            c.age == age,
            c.favorite_food == favorite_food,
    {
        Self { name, email, favorite_food, age }
    }

    /// A copy of this contact.
    pub fn duplicate(&self) -> (c: Self)
        ensures
            c == *self,
    {
        Contact {
            name: self.name.clone(),
            email: self.email.clone(),
            favorite_food: self.favorite_food.clone(),
            age: self.age,
        }
    }
}

/// The data of the whole application.
pub struct AppState {
    pub app_name: String,
    /// The open screens, bottom first.
    pub nav_state: Vec<UiView>,
    pub contacts: Vec<Contact>,
    /// The index of the contact that the detail and edit screens show.
    pub selected: Option<usize>,
}

impl ViewController<UiView> for AppState {
    open spec fn view_stack(&self) -> Seq<UiView> {
        self.nav_state@
    }

    fn add_view(&mut self, view: UiView)
        ensures
            final(self).contacts == old(self).contacts,
            final(self).selected == old(self).selected,
            final(self).app_name == old(self).app_name,
    {
        self.nav_state.push(view);
    }

    fn pop_view(&mut self)
        ensures
            final(self).contacts == old(self).contacts,
            final(self).selected == old(self).selected,
            final(self).app_name == old(self).app_name,
    {
        let _ = self.nav_state.pop();
    }

    fn current_view(&self) -> (r: &UiView) {
        &self.nav_state[self.nav_state.len() - 1]
    }

    fn len(&self) -> (n: usize) {
        self.nav_state.len()
    }
}

impl AppState {
    /// The number of rows of the contact list.
    pub fn data_len(&self) -> (n: usize)
        ensures
            n == self.contacts@.len(),
    {
        self.contacts.len()
    }

    /// Whether the selection, if any, points at a contact.
    pub open spec fn selection_in_range(&self) -> bool {
        self.selected matches Some(i) ==> i < self.contacts@.len()
    }
}

/// The scratch copy of a contact that the edit screen works on.
pub struct EditState {
    pub contact: Contact,
    pub index: usize,
    pub was_saved: bool,
}

/// The contact shown when nothing is selected.
pub open spec fn is_blank_contact(c: Contact) -> bool {
    &&& c.name@ == Seq::<char>::empty()
    &&& c.email@ == Seq::<char>::empty()
    &&& c.favorite_food@ == Seq::<char>::empty()
    &&& c.age == 31
}

impl EditState {
    /// A scratch copy of the selected contact, or of a blank contact at
    /// index 0 when none is selected.
    pub fn new(data: AppState) -> (s: Self)
        requires
            data.selection_in_range(),
        ensures
            !s.was_saved,
            match data.selected {
                Some(i) => s.contact == data.contacts@[i as int] && s.index == i,
                None => is_blank_contact(s.contact) && s.index == 0,
            },
            data.selected is None ==> s.contact.name@.len() == 0 && s.contact.email@.len() == 0
                && s.contact.favorite_food@.len() == 0 && s.contact.age == 31,
    {
        let (contact, index) = match data.selected {
            Some(idx) => (data.contacts[idx].duplicate(), idx),
            None => (Contact::new(String::new(), String::new(), 31, String::new()), 0),
        };
        EditState { contact, index, was_saved: false }
    }

    /// Marks the edits as saved.
    pub fn save(&mut self)
        ensures
            final(self).was_saved,
            final(self).contact == old(self).contact,
            final(self).index == old(self).index,
    {
        self.was_saved = true;
    }
}

/// Moves a contact between the application data and the edit screen.
pub struct EditTransfer;

/// The index of the contact that a reload takes: the selected one, or 0.
pub open spec fn reload_index(selected: Option<usize>) -> usize {
    match selected {
        Some(i) => i,
        None => 0,
    }
}

/// The scratch copy after [`EditTransfer::read_input`] over `contacts` with
/// selection `selected`.
pub open spec fn after_read_input(
    state: EditState,
    contacts: Seq<Contact>,
    selected: Option<usize>,
) -> EditState {
    if state.was_saved {
        EditState {
            contact: contacts[reload_index(selected) as int],
            index: reload_index(selected),
            was_saved: false,
        }
    } else {
        state
    }
}

/// The contacts after [`EditTransfer::write_back_input`] of `state`.
pub open spec fn after_write_back(state: EditState, contacts: Seq<Contact>) -> Seq<Contact> {
    if state.was_saved {
        contacts.update(state.index as int, state.contact)
    } else {
        contacts
    }
}

impl EditTransfer {
    /// After a save, reloads the scratch copy from the selected contact (or
    /// contact 0 when none is selected) and clears the saved mark; otherwise
    /// leaves it alone.
    pub fn read_input(&self, state: &mut EditState, inner: &AppState)
        requires
            old(state).was_saved ==> reload_index(inner.selected) < inner.contacts@.len(),
        ensures
            *final(state) == after_read_input(*old(state), inner.contacts@, inner.selected),
            !old(state).was_saved ==> *final(state) == *old(state),
            old(state).was_saved ==> !final(state).was_saved,
            old(state).was_saved && inner.selected is None ==> final(state).index == 0,
            old(state).was_saved && inner.selected is Some ==> Some(final(state).index)
                == inner.selected,
            old(state).was_saved ==> final(state).contact
                == inner.contacts@[final(state).index as int],
    {
        if state.was_saved {
            let selected = inner.selected;
            let idx = if let Some(idx) = selected {
                idx
            } else {
                0
            };
            state.contact = inner.contacts[idx].duplicate();
            state.index = idx;
            state.was_saved = false;
        }
    }

    /// After a save, writes the scratch copy over the contact it came from;
    /// otherwise leaves the data alone.
    pub fn write_back_input(&self, state: &EditState, inner: &mut AppState)
        requires
            state.was_saved ==> state.index < old(inner).contacts@.len(),
        ensures
            final(inner).contacts@ == after_write_back(*state, old(inner).contacts@),
            final(inner).contacts@.len() == old(inner).contacts@.len(),
            state.was_saved ==> final(inner).contacts@[state.index as int] == state.contact,
            forall|j: int|
                0 <= j < old(inner).contacts@.len() && (j != state.index || !state.was_saved)
                    ==> #[trigger] final(inner).contacts@[j] == old(inner).contacts@[j],
            final(inner).nav_state == old(inner).nav_state,
            final(inner).selected == old(inner).selected,
            final(inner).app_name == old(inner).app_name,
    {
        if state.was_saved {
            let c = state.contact.duplicate();
            inner.contacts.set(state.index, c);
        }
    }
}

/// Saved edits that were written back are what a reload reads: after
/// [`EditTransfer::write_back_input`] of a saved scratch copy, a
/// [`EditTransfer::read_input`] with that contact selected gives back the same
/// contact at the same index, with the saved mark cleared.
pub proof fn law_reload_returns_written(state: EditState, contacts: Seq<Contact>)
    requires
        state.was_saved,
        state.index < contacts.len(),
    ensures
        after_read_input(state, after_write_back(state, contacts), Some(state.index))
            == (EditState { contact: state.contact, index: state.index, was_saved: false }),
{
}

/// Writing back a saved scratch copy replaces the contact at its index and
/// nothing else: the list keeps its length and every other contact.
pub proof fn law_write_back_replaces_only_saved(state: EditState, contacts: Seq<Contact>)
    requires
        state.was_saved,
        state.index < contacts.len(),
    ensures
        after_write_back(state, contacts).len() == contacts.len(),
        after_write_back(state, contacts)[state.index as int] == state.contact,
        forall|j: int|
            0 <= j < contacts.len() && j != state.index ==> #[trigger] after_write_back(
                state,
                contacts,
            )[j] == contacts[j],
{
}

/// A reload after a save copies the selected contact (contact 0 when none
/// is selected), takes its index and clears the saved mark.
pub proof fn law_reload_copies_selected(
    state: EditState,
    contacts: Seq<Contact>,
    selected: Option<usize>,
)
    requires
        state.was_saved,
    ensures
        selected is None ==> after_read_input(state, contacts, selected).index == 0,
        selected is Some ==> Some(after_read_input(state, contacts, selected).index) == selected,
        after_read_input(state, contacts, selected).contact == contacts[after_read_input(
            state,
            contacts,
            selected,
        ).index as int],
        !after_read_input(state, contacts, selected).was_saved,
{
}

/// Unsaved edits change nothing: neither the contacts nor the scratch copy.
pub proof fn law_unsaved_edits_are_kept_apart(
    state: EditState,
    contacts: Seq<Contact>,
    selected: Option<usize>,
)
    requires
        !state.was_saved,
    ensures
        after_write_back(state, contacts) == contacts,
        after_read_input(state, contacts, selected) == state,
{
}

/// One row of the contact list: the open screens, the contact of the row,
/// the selection and the row's index.
pub struct ContactRow {
    pub nav_state: Vec<UiView>,
    pub contact: Contact,
    pub selected: Option<usize>,
    pub index: usize,
}

impl AppState {
    /// The row at `idx` of the contact list.
    pub fn row(&self, idx: usize) -> (r: ContactRow)
        requires
            idx < self.contacts@.len(),
        ensures
            r.nav_state@ == self.nav_state@,
            r.contact == self.contacts@[idx as int],
            r.selected == self.selected,
            r.index == idx,
    {
        ContactRow {
            nav_state: clone_views(&self.nav_state),
            contact: self.contacts[idx].duplicate(),
            selected: self.selected,
            index: idx,
        }
    }

    /// Takes back what the row at hand changed. `any_changed_before` tells
    /// whether an earlier row changed the open screens and `row_changed`
    /// whether this one did; the result tells whether any row has now. Once
    /// one has, the open screens and the selection of the row are kept;
    /// changes to the row's contact are not.
    pub fn absorb_row(&mut self, row: ContactRow, any_changed_before: bool, row_changed: bool) -> (any:
        bool)
        ensures
            any == (any_changed_before || row_changed),
            final(self).contacts == old(self).contacts,
            final(self).app_name == old(self).app_name,
            any ==> final(self).nav_state == row.nav_state,
            any ==> final(self).selected == row.selected,
            !any ==> final(self).nav_state == old(self).nav_state,
            !any ==> final(self).selected == old(self).selected,
    {
        let any = any_changed_before || row_changed;
        if any {
            self.nav_state = row.nav_state;
            self.selected = row.selected;
        }
        any
    }
}

} // verus!
