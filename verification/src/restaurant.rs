//! The modules exercise: a restaurant's front and back of house in one
//! module, hosting and serving side by side.

use std::collections::HashMap;
use vstd::prelude::*;

verus! {

/// Put a party on the waiting list; the lesson leaves it empty.
pub fn add_to_waitlist() {
}

/// Seat a waiting party; the lesson leaves it empty.
pub fn seat_at_table() {
}

#[allow(dead_code)]
fn take_order() {
}

#[allow(dead_code)]
fn serve_order() {
}

#[allow(dead_code)]
fn take_payment() {
}

fn deliver_order() {
}

#[allow(dead_code)]
fn fix_incorrect_order() {
    cook_order();
    deliver_order();
}

fn cook_order() {
}

/// A breakfast order: the diner picks the toast, the kitchen picks the
/// seasonal fruit.
pub struct Breakfast {
    pub toast: String,
    seasonal_fruit: String,
}

impl Breakfast {
    /// What toast the order asks for.
    pub closed spec fn toast(self) -> Seq<char> {
        self.toast@
    }

    /// What fruit came with the order.
    pub closed spec fn seasonal_fruit(self) -> Seq<char> {
        self.seasonal_fruit@
    }

    /// A summer breakfast: the chosen toast, served with peaches.
    pub fn summer(toast: &str) -> (b: Breakfast)
        ensures
            b.toast() == toast@,
            b.seasonal_fruit() == "peaches"@,
    {
        Breakfast { toast: toast.to_owned(), seasonal_fruit: "peaches".to_owned() }
    }
}

/// A starter course.
pub enum Appetizer {
    Soup,
    Salad,
}

/// Walk in and join the waiting list, once by each path the lesson
/// demonstrates.
pub fn eat_at_restaurant() {
    add_to_waitlist();
    add_to_waitlist();
}

/// Walk in and join the waiting list, by the short path.
pub fn eat_at_restaurant_3() {
    add_to_waitlist();
}

#[allow(dead_code)]
fn use_hashmap() {
    let mut map: HashMap<i32, i32> = HashMap::new();
    map.insert(1, 2);
}

} // verus!
