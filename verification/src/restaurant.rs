//! A small menu model: breakfasts built through a constructor because one
//! field stays private, appetizers, and a couple of ordering helpers.

use vstd::prelude::*;
use vstd::string::StringExecFns;

verus! {

/// A breakfast order; the fruit is chosen by the kitchen, so only the toast
/// is public.
#[derive(Debug)]
pub struct Breakfast {
    pub toast: String,
    seasonal_fruit: String,
}

impl Breakfast {
    /// The toast that was ordered.
    pub closed spec fn toast_view(&self) -> Seq<char> {
        self.toast@
    }

    /// The fruit that came with the order.
    pub closed spec fn fruit(&self) -> Seq<char> {
        self.seasonal_fruit@
    }

    /// A summer breakfast: the chosen toast, with mango on the side.
    pub fn summer(toast: &str) -> (b: Breakfast)
        ensures
            b.toast_view() == toast@,
            b.fruit() == "mango"@,
    {
        Breakfast { toast: String::from_str(toast), seasonal_fruit: String::from_str("mango") }
    }
}

/// A starter course.
#[derive(Debug, Clone, Copy, PartialEq, Eq, Structural)]
pub enum Appetizer {
    Soup,
    Salad,
}

/// Orders a summer breakfast, swaps the toast, and picks two starters.
pub fn eat_at_restaurant() {
    let mut meal = Breakfast::summer("Rye");
    meal.toast = String::from_str("Wheat");
    let _order1 = Appetizer::Soup;
    let _order2 = Appetizer::Salad;
}

/// Relies on rand::thread_rng and rand::Rng::gen_range: the result is drawn
/// from the half-open range, which must be non-empty.
#[verifier::external_body]
fn random_in_range(low: u32, high: u32) -> (r: u32)
    requires
        low < high,
    ensures
        low <= r < high,
{
    rand::Rng::gen_range(&mut rand::thread_rng(), low..high)
}

/// Draws a lottery number and places the two standing orders.
pub fn eat() {
    let _random_number = random_in_range(1, 101);
    let _order1 = Appetizer::Soup;
    let _order2 = Appetizer::Salad;
}

/// Puts a party on the waitlist.
pub fn add_to_waitlist() {
}

/// Queues two parties in a row.
pub fn eat_eat() {
    add_to_waitlist();
    add_to_waitlist();
}

} // verus!
