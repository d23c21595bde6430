use vstd::prelude::*;

use crate::state::{Contact, ContactView};

verus! {

/// The contacts the application starts with.
pub open spec fn example_contacts() -> Seq<ContactView> {
    seq![
        ContactView {
            name: "Billy Bob"@,
            email: "Billybob@gmail.com"@,
            favorite_food: "Curry"@,
            age: 39,
        },
        ContactView {
            name: "Waka waka"@,
            email: "wakaka@gmail.com"@,
            favorite_food: "Fried Rice"@,
            age: 65,
        },
        ContactView {
            name: "Chance Rapper"@,
            email: "chancerapper@gmail.com"@,
            favorite_food: "Brussel Sprouts"@,
            age: 22,
        },
        ContactView {
            name: "Vincente Fernandez"@,
            email: "VFernandez@gmail.com"@,
            favorite_food: "Rice and Beans"@,
            age: 51,
        },
    ]
}

/// The contacts the application starts with.
pub fn get_data() -> (contacts: Vec<Contact>)
    ensures
        contacts@.len() == example_contacts().len(),
        forall|i: int| 0 <= i < contacts@.len() ==> #[trigger] contacts@[i]@ == example_contacts()[i],
{
    let mut contacts: Vec<Contact> = Vec::new();
    contacts.push(
        Contact::new(
            "Billy Bob".to_string(),
            "Billybob@gmail.com".to_string(),
            39,
            "Curry".to_string(),
        ),
    );
    contacts.push(
        Contact::new(
            "Waka waka".to_string(),
            "wakaka@gmail.com".to_string(),
            65,
            "Fried Rice".to_string(),
        ),
    );
    contacts.push(
        Contact::new(
            "Chance Rapper".to_string(),
            "chancerapper@gmail.com".to_string(),
            22,
            "Brussel Sprouts".to_string(),
        ),
    );
    contacts.push(
        Contact::new(
            "Vincente Fernandez".to_string(),
            "VFernandez@gmail.com".to_string(),
            51,
            "Rice and Beans".to_string(),
        ),
    );
    assert forall|i: int| 0 <= i < contacts@.len() implies #[trigger] contacts@[i]@
        == example_contacts()[i] by {
        if i == 0 {
        } else if i == 1 {
        } else if i == 2 {
        } else {
        }
    }
    contacts
}

} // verus!
